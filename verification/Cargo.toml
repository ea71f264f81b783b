[package]
name = "home"
version = "0.1.0"
edition = "2021"
publish = false

[dependencies]
anyhow = "1"
env_logger = { version = "0.10", default-features = false }
futures = "0.3"
mac_address = "1"
once_cell = "1"
parking_lot = "0.12"
rand = "0.8"
reqwest = { version = "0.11", default-features = false, features = ["blocking", "json"] }
rocket = "0.5"
serde = { version = "1", features = ["derive"] }
serialport = { version = "4", default-features = false }
