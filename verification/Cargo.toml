[package]
name = "containerless"
version = "0.1.0"
edition = "2021"
publish = false

[dependencies]
bytes = "=1.12.1"
clap = { version = "=4.6.7", features = ["derive"] }
env_logger = "=0.11.11"
futures = "=0.3.34"
http = "=1.5.0"
hyper = { version = "=1.12.0", features = ["client", "http1"] }
hyper-timeout = "=0.5.2"
hyper-util = { version = "=0.1.21", features = ["client-legacy", "http1", "tokio"] }
im-rc = "=15.1.0"
k8s-openapi = { version = "=0.27.1", features = ["latest"] }
kube = { version = "=3.1.0", default-features = false, features = ["client"] }
log = "=0.4.34"
regex = "=1.13.1"
reqwest = { version = "=0.13.5", default-features = false, features = ["json"] }
serde = { version = "=1.0.229", features = ["derive"] }
serde_json = "=1.0.154"
tokio = { version = "=1.54.1", features = ["full"] }
warp = { version = "=0.4.3", features = ["server"] }
