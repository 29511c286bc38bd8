//! Helpers around byte-oriented readers and writers.

pub mod read;
pub mod write;
