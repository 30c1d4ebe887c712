[package]
name = "kuo"
version = "0.1.0"
edition = "2021"
publish = false

[dependencies]
anyhow = "*"
axum = "*"
base64 = "=0.23.1"
chrono = "*"
clap = { version = "*", features = ["derive", "env"] }
dotenvy = "*"
futures = "*"
k8s-openapi = { version = "=0.27.1", features = ["latest"] }
kube = { version = "=3.1.0", features = ["runtime", "derive", "client"] }
lettre = { version = "*", features = ["tokio1", "tokio1-native-tls", "pool", "smtp-transport", "builder"] }
openssl = "=0.10.81"
schemars = "*"
serde = { version = "*", features = ["derive"] }
serde_json = "*"
serde_yaml = "*"
thiserror = "*"
tokio = { version = "*", features = ["full"] }
tracing = "*"
tracing-subscriber = "*"
