[package]
name = "n8n-rustful-operator"
version = "0.1.0"
edition = "2021"
publish = false

[dependencies]
serde_json = "1"
hex = "0.4"
rand = "0.9"
serde = { version = "1", features = ["derive"] }
kube = { version = "*", features = ["runtime", "derive", "client"] }
k8s-openapi = { version = "*", features = ["latest"] }
schemars = "*"
tokio = { version = "1", features = ["macros", "rt-multi-thread"] }
futures = "*"
tracing = "*"
jiff = { version = "*", features = ["serde"] }
prometheus-client = "*"
opentelemetry = "*"
anyhow = "1"
thiserror = "*"
serde_yaml = "*"
