[package]
name = "randselect"
version = "0.1.0"
edition = "2021"
publish = false

[dependencies]
rand = "0.8"
anyhow = "1"
chrono = "0.4"
clap = { version = "4", features = ["derive"] }
colored = "2"
fern = { version = "0.6", features = ["colored"] }
human-panic = "1"
log = "0.4"
pretty_env_logger = "0.5"
thiserror = "1"
