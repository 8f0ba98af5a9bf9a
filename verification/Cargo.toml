[package]
name = "light_operator"
version = "0.1.0"
edition = "2021"
publish = false

[dependencies]
uuid = "=1.27.0"
time = { version = "=0.3.55", features = ["serde-well-known"] }
serde = { version = "*", features = ["derive"] }
serde_json = "*"
serde_yaml = "*"
serde_flat_path = "*"
reqwest = { version = "*", default-features = false, features = ["rustls-tls", "gzip", "json"] }
tokio = { version = "*", features = ["full"] }
kube = { version = "=3.1.0", features = ["client", "runtime", "derive"] }
k8s-openapi = { version = "=0.27.1", features = ["latest"] }
schemars = "1"
futures = "*"
thiserror = "*"
anyhow = "*"
axum = "*"
async-trait = "*"
tracing = "*"
tracing-subscriber = { version = "*", features = ["env-filter"] }
