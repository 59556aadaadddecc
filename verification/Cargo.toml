[package]
name = "moto_core"
version = "0.1.0"
edition = "2021"
publish = false

[dependencies]
base64 = "=0.22.1"
reqwest = { version = "=0.12.28", default-features = false, features = ["json"] }
serde = { version = "=1.0.229", features = ["derive"] }
serde_json = "=1.0.154"
ewebsock = "=0.8.0"
web-sys = { version = "=0.3.107", features = ["Window", "Storage"] }
