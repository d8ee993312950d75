[package]
name = "fog05"
version = "0.1.0"
edition = "2021"
publish = false

[dependencies]
async-std = "1"
env_logger = "0.8"
log = "0.4"
pyo3 = { version = "0.13", features = ["extension-module"] }
serde_cbor = "0.11"
serde_json = "1"
serde_yaml = "0.8"
url = "2"
uuid = "0.8"
zenoh = "=0.5.0-beta.8"
