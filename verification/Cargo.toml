[package]
name = "generic_cache"
version = "0.1.0"
edition = "2021"
publish = false

[dependencies]
futures = "0.3"
futures-timer = "3"
log = "0.4"
serde = { version = "1", features = ["derive"] }
