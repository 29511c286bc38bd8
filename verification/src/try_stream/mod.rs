//! Combinators over streams whose items are results.

pub mod and_then;
pub mod err_into;
pub mod inspect_err;
pub mod inspect_ok;
pub mod map_err;
pub mod map_ok;
pub mod or_else;
pub mod try_buffer_unordered;
pub mod try_filter;
pub mod try_filter_map;
pub mod try_fold;
pub mod try_for_each;
pub mod try_for_each_concurrent;
