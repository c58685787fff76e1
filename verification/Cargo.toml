[package]
name = "faster-rs"
version = "0.11.0"
edition = "2021"
publish = false

[dependencies]
libc = "0.2"
linux-futex = "*"

[dev-dependencies]
tempfile = "3"
