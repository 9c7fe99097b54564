[package]
name = "nomad_logger"
version = "0.1.0"
edition = "2021"
publish = false

[dependencies]
serde = "=1.0.229"
serde_json = "=1.0.151"
chrono = "=0.4.45"
log = { version = "=0.4.34", features = ["std"] }
stable-eyre = "=0.2.2"
