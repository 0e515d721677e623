[package]
name = "sql_scaler"
version = "0.1.0"
edition = "2021"
publish = false

[dependencies]
tokio = { version = "=1.53.2", features = ["macros", "rt-multi-thread"] }
tonic = "=0.14.6"
tonic-prost = "*"
prost = "=0.14.4"
tokio-stream = "=0.1.19"
oracle = "=0.6.3"
log = "*"
env_logger = "*"
