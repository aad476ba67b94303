[package]
name = "orchestrator"
version = "0.1.0"
edition = "2021"
publish = false

[dependencies]
anyhow = "1"
bollard = "0.14"
crossbeam = "0.8"
env_logger = "0.10"
futures-util = "0.3"
json5 = "0.4"
log = "0.4"
serde = { version = "1", features = ["derive"] }
tokio = { version = "1", features = ["rt-multi-thread", "time", "macros"] }
