[package]
name = "kudo"
version = "0.1.0"
edition = "2021"
publish = false

[dependencies]
actix-web = { version = "=4.18.1", default-features = false, features = ["macros"] }
env_logger = "=0.9.3"
etcd-client = "=0.9.2"
futures-core = "=0.3.34"
futures-util = "=0.3.34"
log = "=0.4.35"
prost = "0.10"
rand = "=0.8.8"
serde = { version = "=1.0.229", features = ["derive"] }
serde_json = "=1.0.154"
tokio = { version = "=1.54.1", features = ["full"] }
tonic = "0.7"
uuid = { version = "=1.29.1", features = ["v4"] }
