[package]
name = "airtag_scanner"
version = "0.1.0"
edition = "2021"
publish = false

[dependencies]
btleplug = "*"
tokio = { version = "*", features = ["rt", "macros"] }
futures = "*"
log = "*"
env_logger = "*"
