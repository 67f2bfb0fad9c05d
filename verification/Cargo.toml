[package]
name = "camunda_backup"
version = "0.1.0"
edition = "2021"
publish = false

[dependencies]
async-trait = "0.1"
chrono = "0.4"
chrono-humanize = "0.2"
clap = { version = "4", features = ["derive"] }
hyper = { version = "0.14", features = ["client", "http1"] }
k8s-openapi = { version = "0.20", features = ["v1_26"] }
kube = { version = "0.87", features = ["ws", "runtime"] }
serde = { version = "1", features = ["derive"] }
serde_derive = "1"
serde_json = "1"
tokio = { version = "1", features = ["full"] }
tracing = "0.1"
tracing-subscriber = { version = "0.3", features = ["env-filter"] }
tracing-tree = "0.2"
