[package]
name = "elpis"
version = "0.1.0"
edition = "2021"
publish = false

[dependencies]
serde = { version = "1", features = ["derive"] }
serde_json = "1"
web-time = "1"
blinc_core = { version = "0.5.1", default-features = false }
blinc_layout = { version = "0.5.1", default-features = false }
