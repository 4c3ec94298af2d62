[package]
name = "consecrates"
version = "0.1.0"
edition = "2021"
publish = false

[dependencies]
anyhow = "1"
chrono = { version = "0.4", features = ["serde"] }
http_req = "*"
serde = { version = "1", features = ["derive"] }
serde_json = "1"
