[package]
name = "dataset_controller"
version = "0.1.0"
edition = "2021"
publish = false

[dependencies]
futures = "=0.3.34"
k8s-openapi = { version = "=0.28.0", features = ["latest", "schemars"] }
kube = { version = "=4.2.0", features = ["client", "derive", "runtime"] }
schemars = "=1.2.2"
serde = { version = "=1.0.229", features = ["derive"] }
serde_json = "=1.0.151"
thiserror = "=2.0.21"
tokio = { version = "=1.53.2", features = ["macros", "rt-multi-thread"] }
