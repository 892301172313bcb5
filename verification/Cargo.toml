[package]
name = "nino"
version = "0.1.0"
edition = "2021"
publish = false

[dependencies]
anyhow = "*"
bincode = "1"
clap = "*"
crossbeam-channel = "*"
env_logger = "*"
log = "*"
prost = "*"
rand = "*"
rhai = "*"
serde = { version = "*", features = ["derive"] }
sled = "*"
tokio = { version = "*", features = ["rt", "net", "io-util", "sync", "macros", "time"] }
