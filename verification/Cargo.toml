[package]
name = "rjudge"
version = "0.1.0"
edition = "2021"
publish = false

[dependencies]
amqprs = "=1.8.0"
axum = { version = "=0.7.9", features = ["macros"] }
piston_rs = "=0.4.3"
reqwest = { version = "=0.11.27", default-features = false, features = ["json", "rustls-tls"] }
serde = { version = "=1.0.229", features = ["derive"] }
serde_json = "=1.0.154"
tokio = { version = "=1.54.1", features = ["full"] }
tracing-subscriber = { version = "=0.3.23", features = ["env-filter"] }
