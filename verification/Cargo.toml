[package]
name = "wstunnel"
version = "0.1.0"
edition = "2021"
publish = false

[dependencies]
anyhow = "*"
bytes = "*"
fastwebsockets = { version = "*", features = ["upgrade", "unstable-split"] }
futures-util = "*"
http-body-util = "*"
hyper = { version = "*", features = ["client", "http1"] }
hyper-util = { version = "*", features = ["tokio"] }
tokio = { version = "*", features = ["io-util", "rt"] }
uuid = { version = "*", features = ["v4"] }
