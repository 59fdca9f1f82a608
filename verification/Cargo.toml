[package]
name = "ttrpc"
version = "0.1.0"
edition = "2021"
publish = false

[dependencies]
tokio = { version = "1", features = ["io-util", "net", "rt", "macros"] }
sendfd = { version = "0.4", features = ["tokio"] }
protobuf = "3"
