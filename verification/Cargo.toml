[package]
name = "engula_operator"
version = "0.1.0"
edition = "2021"
publish = false

[dependencies]
chrono = "=0.4.45"
futures = "=0.3.34"
k8s-openapi = { version = "=0.27.1", features = ["latest", "schemars"] }
kube = { version = "=3.1.0", features = ["client", "derive", "runtime"] }
opentelemetry = "=0.33.0"
opentelemetry-otlp = "=0.33.0"
opentelemetry_sdk = "=0.33.0"
prometheus = "=0.14.0"
schemars = "=1.2.2"
serde = { version = "=1.0.229", features = ["derive"] }
serde_json = "=1.0.151"
thiserror = "=2.0.21"
tokio = { version = "=1.53.2", features = ["macros", "rt-multi-thread", "time"] }
tonic = "=0.14.6"
tracing = "=0.1.44"
tracing-opentelemetry = "=0.34.0"
