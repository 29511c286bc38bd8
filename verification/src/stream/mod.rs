//! Combinators over plain streams.

pub mod filter_map;
pub mod take_while;
pub mod then;
