[package]
name = "authd"
version = "0.1.0"
edition = "2021"
publish = false

[dependencies]
jsonwebtoken = "7"
serde_json = "1"
chrono = "0.4"
serde = { version = "1", features = ["derive"] }
reqwest = { version = "0.12", features = ["blocking", "json"] }
notify = "8"
crossbeam-channel = "0.5"
log = "0.4"
env_logger = "0.11"
structopt = "0.3"
