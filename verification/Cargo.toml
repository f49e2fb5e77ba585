[package]
name = "crucible"
version = "0.1.0"
edition = "2021"
publish = false

[dependencies]
anyhow = "1"
aws-sdk-s3 = "1"
axum = "0.8"
bytes = "1"
chrono = "0.4"
clap = { version = "4", features = ["derive", "env"] }
futures = "0.3"
k8s-openapi = { version = "0.27", features = ["latest"] }
kube = { version = "3", features = ["runtime", "derive"] }
schemars = "1"
serde = { version = "1", features = ["derive"] }
serde_json = "1"
thiserror = "2"
tokio = { version = "1", features = ["full"] }
tracing = "0.1"
tracing-subscriber = { version = "0.3", features = ["json", "env-filter"] }
