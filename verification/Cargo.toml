[package]
name = "minidb"
version = "0.1.0"
edition = "2021"
publish = false

[dependencies]
rand = "=0.10.3"
serde = { version = "*", features = ["derive"] }
serde_json = "*"
thiserror = "*"
log = "*"
env_logger = "*"
chrono = { version = "=0.4.45", features = ["serde"] }
tokio = { version = "*", features = ["rt-multi-thread", "macros", "signal"] }
