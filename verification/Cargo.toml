[package]
name = "mapimsg"
version = "0.1.0"
edition = "2021"
publish = false

[dependencies]
cfb = "=0.15.0"
crc = "=3.4.0"
uuid = "=1.27.0"
chrono = { version = "=0.4.45", features = ["serde"] }
serde = { version = "=1.0.229", features = ["derive"] }
