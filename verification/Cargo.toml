[package]
name = "cloudflare"
version = "0.1.0"
edition = "2021"
publish = false

[dependencies]
chrono = { version = "0.4", default-features = false, features = ["std"] }
http = "1"
serde_json = { version = "1", features = ["preserve_order"] }
