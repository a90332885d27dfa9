[package]
name = "llrt_stream"
version = "0.1.0"
edition = "2021"
publish = false

[dependencies]
rquickjs = { version = "*", features = ["macro"] }
