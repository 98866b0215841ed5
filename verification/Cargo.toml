[package]
name = "mpmc"
version = "0.1.0"
edition = "2021"
publish = false

[dependencies]
crossbeam-queue = "*"
crossbeam-channel = "*"
flume = { version = "*", default-features = false }

[dev-dependencies]
crossbeam-utils = "*"
