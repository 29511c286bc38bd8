//! Futures.

pub mod pending;
