[package]
name = "arrow_adbc"
version = "0.1.0"
edition = "2021"
publish = false

[dependencies]
arrow-array = { version = "*", features = ["ffi"] }
arrow-schema = { version = "*", features = ["ffi"] }
arrow-data = "*"
