[package]
name = "edge_server"
version = "0.1.0"
edition = "2021"
publish = false

[dependencies]
dotenv = "0.15"
env_logger = "0.10"
hyper = { version = "0.14", features = ["full"] }
hyper-staticfile = "0.9"
log = "0.4"
tokio = { version = "1", features = ["full"] }
