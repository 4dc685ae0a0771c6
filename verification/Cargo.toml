[package]
name = "openwhisper"
version = "0.1.0"
edition = "2021"
publish = false

[dependencies]
keyboard-types = { version = "0.7", default-features = false }
arboard = { version = "3", default-features = false }
serde = { version = "1", features = ["derive"] }
serde_json = "1"
dirs = "5"
anyhow = "1"
log = "0.4"
env_logger = { version = "0.11", default-features = false }
crossbeam-channel = "0.5"
parking_lot = "0.12"
once_cell = "1"
encoding_rs = "0.8"
