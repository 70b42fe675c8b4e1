[package]
name = "web_ops"
version = "0.1.0"
edition = "2021"
publish = false

[dependencies]
urlencoding = "2"
uuid = { version = "1", features = ["v4"] }
serde = { version = "1", features = ["derive"] }
serde_json = "1"
gloo-net = { version = "0.6", default-features = false, features = ["http", "json"] }
web-sys = { version = "0.3", features = ["File", "FormData", "Blob"] }
