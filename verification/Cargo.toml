[package]
name = "vip_reconciler"
version = "0.1.0"
edition = "2021"
publish = false

[dependencies]
either = "1"
figment = { version = "0.10", features = ["env"] }
hickory-resolver = "0.24"
humantime-serde = "1"
k8s-openapi = { version = "0.24", features = ["latest"] }
kube = { version = "0.98", features = ["runtime"] }
serde = { version = "1", features = ["derive"] }
tokio = { version = "1", features = ["macros", "rt", "time"] }
tracing = "0.1"
tracing-subscriber = { version = "0.3", features = ["env-filter"] }
