[package]
name = "mp4csv"
version = "0.1.0"
edition = "2021"
publish = false

[dependencies]
file-format = { version = "=0.29.0", features = ["reader-mp4"] }
chrono = { version = "=0.4.45", features = ["serde"] }
clap = { version = "*", features = ["env"] }
csv = "*"
glob = "*"
log = "*"
env_logger = "*"
serde = { version = "*", features = ["derive"] }
serde_json = "*"
