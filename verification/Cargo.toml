[package]
name = "sentry_types"
version = "0.1.0"
edition = "2021"
publish = false

[dependencies]
chrono = { version = "0.4", features = ["serde"] }
debugid = { version = "*", features = ["serde"] }
linked-hash-map = { version = "0.5", features = ["serde_impl"] }
serde = { version = "1", features = ["derive"] }
serde_json = "1"
url = "1"
url_serde = "0.2"
uuid = { version = "*", features = ["v4", "serde"] }
