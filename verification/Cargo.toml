[package]
name = "econ_bridge"
version = "0.1.0"
edition = "2021"
publish = false

[dependencies]
regex = "*"
serde = { version = "*", features = ["derive"] }
serde_derive = "*"
serde_yaml = "*"
log = "*"
tokio = { version = "*", features = ["fs", "io-util", "net", "rt", "time"] }
async-nats = "*"
tw-econ = "*"
