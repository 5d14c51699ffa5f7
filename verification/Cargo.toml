[package]
name = "vortex"
version = "0.1.0"
edition = "2021"
publish = false

[dependencies]
rust-argon2 = "=2.1.0"
crypter = "=0.1.3"
lazy-regex = "=3.6.2"
rand = "=0.8.8"
uuid = { version = "=1.29.1", features = ["v4"] }
murmur3 = "=0.5.2"
tracing = "=0.1.44"
tracing-opentelemetry = "=0.28.0"
opentelemetry = "=0.27.1"
serde = { version = "=1.0.229", features = ["derive"] }
serde_json = "=1.0.154"
