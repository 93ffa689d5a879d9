[package]
name = "oxic"
version = "0.1.0"
edition = "2021"
publish = false

[dependencies]
crossbeam-queue = "0.3"
lockfree = "0.5"
epoll = "4.3"
syn = { version = "2", features = ["full"] }
quote = "1"
proc-macro2 = "1"
