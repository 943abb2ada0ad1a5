[package]
name = "action_hero"
version = "0.1.0"
edition = "2021"
publish = false

[dependencies]
anyhow = "1"
axum = "0.8"
clap = "4"
opentelemetry = "*"
opentelemetry-otlp = { version = "*", features = ["grpc-tonic"] }
opentelemetry_sdk = "*"
opentelemetry-semantic-conventions = { version = "*", features = ["semconv_experimental"] }
reqwest = { version = "0.12", default-features = false, features = ["json", "rustls-tls"] }
serde = { version = "1", features = ["derive"] }
serde_json = "1"
sha2 = "0.10"
time = { version = "0.3", features = ["serde", "formatting", "parsing"] }
tokio = { version = "1", features = ["full"] }
tracing = "0.1"
tracing-subscriber = "0.3"
