[package]
name = "notify_relay"
version = "0.1.0"
edition = "2021"
publish = false

[dependencies]
jwt-compact = "*"
serde = { version = "*", features = ["derive"] }
serde_json = "*"
chrono = "*"
uuid = { version = "*", features = ["v4", "serde"] }
url = "*"
reqwest = { version = "*", features = ["json"] }
tokio = { version = "*", features = ["rt-multi-thread", "macros"] }
libsql = "*"
