[package]
name = "rfs"
version = "0.1.0"
edition = "2021"
publish = false

[dependencies]
url = "=2.5.8"
blake3 = { version = "=1.8.7", features = ["pure"] }
mime = "=0.3.17"
clap = { version = "=4.6.7", features = ["derive"] }
serde = { version = "=1.0.229", features = ["derive"] }
serde_json = "=1.0.154"
serde_yaml = "=0.9.34"
hkdf = "=0.12.4"
sha3 = "=0.10.9"
axum = { version = "=0.7.9", default-features = false }
tower = { version = "=0.4.13", default-features = false }
chrono = { version = "0.4", features = ["serde"] }
cron = "0.12"
