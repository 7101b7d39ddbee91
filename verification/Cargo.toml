[package]
name = "virtualization_rs"
version = "0.1.0"
edition = "2021"
publish = false

[dependencies]
objc = "0.2"
block = "0.1"
libc = "0.2"
