[package]
name = "wire_codec"
version = "0.1.0"
edition = "2021"
publish = false

[dependencies]
indradb-lib = "=5.0.0"
uuid = "=1.27.0"
chrono = "=0.4.45"
serde_json = "=1.0.151"
