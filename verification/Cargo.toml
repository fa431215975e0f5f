[package]
name = "mxfinfo"
version = "0.1.0"
edition = "2021"
publish = false

[dependencies]
chrono = { version = "0.4", default-features = false }
libc = "0.2"
num-rational = { version = "0.4", default-features = false }
num-traits = { version = "0.2", default-features = false }
