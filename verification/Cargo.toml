[package]
name = "sentry_bridge"
version = "0.1.0"
edition = "2021"
publish = false

[dependencies]
log = "*"
env_logger = "*"
rocket = "*"
sentry = { version = "*", default-features = false }
