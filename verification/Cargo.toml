[package]
name = "hubcaps"
version = "0.1.0"
edition = "2021"
publish = false

[dependencies]
chrono = { version = "=0.4.45", default-features = false, features = ["std", "serde"] }
futures = "0.3"
schemars = "=0.8.22"
serde = { version = "=1.0.229", features = ["derive"] }
serde_json = "=1.0.154"
url = "=2.5.8"
