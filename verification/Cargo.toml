[package]
name = "instance_catalog"
version = "0.1.0"
edition = "2021"
publish = false

[dependencies]
regex = "=1.13.1"
actix-web = "=4.18.1"
anyhow = "=1.0.104"
async-trait = "=0.1.92"
dotenv = "=0.15.0"
env_logger = "=0.9.3"
futures = "=0.3.34"
handlebars = { version = "=4.5.0", features = ["dir_source"] }
k8s-openapi = { version = "=0.13.1", default-features = false, features = ["v1_22"] }
kube = { version = "=0.66.0", default-features = false, features = ["client", "rustls-tls", "runtime", "derive"] }
kv = { version = "=0.22.0", features = ["bincode-value"] }
log = "=0.4.34"
schemars = "=0.8.22"
serde = { version = "=1.0.229", features = ["derive"] }
serde_json = "=1.0.154"
thiserror = "=1.0.69"
tokio = { version = "=1.54.1", features = ["full"] }
ureq = "=2.12.1"
