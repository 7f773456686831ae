[package]
name = "nexus"
version = "0.1.0"
edition = "2021"
publish = false

[dependencies]
argon2 = { version = "=0.5.3", features = ["std"] }
urlencoding = "=2.1.3"
base64 = "=0.22.1"
serde = { version = "=1.0.229", features = ["derive"] }
serde_json = "=1.0.154"
jsonwebtoken = "=9.3.1"
chrono = "=0.4.45"
uuid = { version = "=1.29.0", features = ["v4"] }
thiserror = "=2.0.21"
regex = "1"
bson = "2"
oauth2 = { version = "4", default-features = false }
