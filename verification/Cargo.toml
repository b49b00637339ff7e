[package]
name = "factorioops"
version = "0.1.0"
edition = "2021"
publish = false

[dependencies]
anyhow = "=1.0.104"
argon2 = { version = "0.5", features = ["std"] }
async-trait = "=0.1.92"
axum = "=0.8.9"
chrono = "=0.4.45"
futures = "=0.3.34"
mongodb = "=3.9.1"
opentelemetry = "=0.33.1"
opentelemetry_sdk = "=0.33.1"
opentelemetry-otlp = { version = "=0.33.1", features = ["grpc-tonic"] }
opentelemetry-appender-tracing = "=0.33.1"
password-hash = { version = "0.5", features = ["getrandom"] }
serde = { version = "=1.0.229", features = ["derive"] }
thiserror = "=2.0.21"
tokio = { version = "=1.54.1", features = ["macros", "rt-multi-thread"] }
tracing = "=0.1.44"
tracing-opentelemetry = "=0.34.0"
tracing-subscriber = "=0.3.23"
ulid = { version = "=1.2.1", features = ["serde"] }
utoipa = "=5.5.0"
utoipa-axum = "=0.2.0"
utoipa-scalar = { version = "=0.3.0", features = ["axum"] }
