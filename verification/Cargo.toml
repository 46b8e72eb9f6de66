[package]
name = "pyqwest"
version = "0.1.0"
edition = "2021"
publish = false

[dependencies]
bytes = "*"
reqwest = { version = "*", default-features = false, features = ["stream"] }
http = "*"
http-body = "*"
http-body-util = "*"
tokio = { version = "*", default-features = false, features = ["rt-multi-thread", "sync"] }
tokio-stream = "*"
futures-core = "*"
arc-swap = "*"
