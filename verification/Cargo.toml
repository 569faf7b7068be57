[package]
name = "cors_policy"
version = "0.1.0"
edition = "2021"
publish = false

[dependencies]
http = "1"
regex = "1"
humantime = "2"
serde = { version = "1", features = ["derive"] }
tower-http = { version = "0.6", features = ["cors"] }

[dev-dependencies]
serde_yaml = "0.9"
