[package]
name = "badal"
version = "0.1.0"
edition = "2021"
publish = false

[dependencies]
serde = { version = "1", features = ["derive"] }
thiserror = "*"
tracing-subscriber = { version = "0.3", features = ["env-filter"] }
pravash = "*"
ushma = "*"
