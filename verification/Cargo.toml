[package]
name = "meshcap"
version = "0.1.0"
edition = "2021"
publish = false

[dependencies]
meshtastic = "*"
log = "*"
env_logger = "*"
tokio = { version = "*", features = ["rt-multi-thread", "macros", "time"] }
serde = { version = "*", features = ["derive"] }
serde_json = "*"
