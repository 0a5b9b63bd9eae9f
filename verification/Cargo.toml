[package]
name = "saturn"
version = "0.1.0"
edition = "2021"
publish = false

[dependencies]
byteorder = "=1.5.0"
rand = "=0.8.8"
rand_chacha = "=0.3.1"
base64 = "=0.21.7"
tokio = { version = "=1.54.1", features = ["sync", "time", "rt", "macros"] }
tokio-util = "=0.7.20"
serde = { version = "=1.0.229", features = ["derive"] }
