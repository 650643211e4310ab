[package]
name = "miniproxee"
version = "0.1.0"
edition = "2021"
publish = false

[dependencies]
bytes = "1"
tokio = { version = "1", features = ["rt", "net", "io-util", "time", "sync"] }
tower = { version = "0.5", features = ["util"] }
