[package]
name = "merzah"
version = "0.1.0"
edition = "2021"
publish = false

[dependencies]
chrono = "0.4"
base64 = "0.22"
rand = "0.8"
reqwest = { version = "0.12", default-features = false }
serde = { version = "1", features = ["derive"] }
serde_json = "1"
thiserror = "2"
garde = { version = "0.22", features = ["derive", "email", "regex"] }
argon2 = "0.5"
anyhow = "1"
tracing = "0.1"
dotenvy = "0.15"
