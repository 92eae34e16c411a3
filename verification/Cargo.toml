[package]
name = "songwhip_bot"
version = "0.1.0"
edition = "2021"
publish = false

[dependencies]
slack-morphism = { version = "=2.29.0", features = ["hyper", "signature-verifier"] }
hmac = "0.12"
sha2 = "0.10"
axum = "=0.6.20"
tokio = { version = "1", features = ["macros", "rt-multi-thread", "sync", "time"] }
hyper = { version = "=0.14.32", features = ["client", "http1", "tcp"] }
hyper-rustls = "=0.24.2"
rustls = "=0.21.12"
serde = { version = "1", features = ["derive"] }
serde_json = "1"
tower-http = { version = "=0.4.4", features = ["trace"] }
tracing = "0.1"
tracing-subscriber = "0.3"
dotenv = "=0.15.0"
anyhow = "1"
url = "=2.5.8"
