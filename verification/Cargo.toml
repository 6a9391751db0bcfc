[package]
name = "quadsbot"
version = "0.1.0"
edition = "2021"
publish = false

[dependencies]
chrono = "0.4"
json = "*"
attohttpc = { version = "*", default-features = false }
log = "*"
env_logger = "*"
