[package]
name = "sparx"
version = "0.1.0"
edition = "2021"
publish = false

[dependencies]
base64 = "*"
sha1 = "*"
bytes = "*"
futures = "*"
http-body-util = "*"
hyper = { version = "*", features = ["server", "http1"] }
hyper-util = { version = "*", features = ["tokio"] }
tokio = { version = "*", features = ["full"] }
tokio-tungstenite = "*"
