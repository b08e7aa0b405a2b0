[package]
name = "ddsi_log_parser"
version = "0.1.0"
edition = "2021"
publish = false

[dependencies]
regex = "=1.13.1"
serde = { version = "=1.0.229", features = ["derive"] }
serde_json = "=1.0.154"
clap = { version = "=3.2.25", features = ["derive"] }
indicatif = "0.17"
log = "=0.4.34"
