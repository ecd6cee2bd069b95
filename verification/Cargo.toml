[package]
name = "toy_load_balancer"
version = "0.1.0"
edition = "2021"
publish = false

[dependencies]
hyper = "0.11"
futures = "0.1"
tokio-core = "0.1"
net2 = "0.2"
num_cpus = "1"
redis = "0.8"
rand = "0.4"
log = "0.4"
pretty_env_logger = "0.2"
config = "0.9"
serde = "1"
serde_derive = "1"
ipc-channel = "*"
