[package]
name = "mpegts_packet"
version = "0.1.0"
edition = "2021"
publish = false

[dependencies]
env_logger = { version = "0.4", default-features = false }
log = "0.3"
