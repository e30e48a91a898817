[package]
name = "rubyx"
version = "0.1.0"
edition = "2021"
publish = false

[dependencies]
crossbeam-channel = "0.5"
libc = "0.2"
magnus = { version = "0.7", features = ["embed"] }
thiserror = "2"
