[package]
name = "imgconv"
version = "0.1.0"
edition = "2021"
publish = false

[dependencies]
image = "0.24"
base64 = "0.21"
uuid = { version = "1", features = ["v4"] }
serde = { version = "1", features = ["derive"] }
serde_json = "1"
trust-dns-resolver = "0.23"
