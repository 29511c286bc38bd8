[package]
name = "futures_combinators"
version = "0.1.0"
edition = "2021"
publish = false

[dependencies]
futures-core = "0.3"
futures-channel = "0.3"
futures-io = "0.3"
pin-utils = "0.1"
