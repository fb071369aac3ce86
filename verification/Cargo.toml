[package]
name = "openrtb2"
version = "0.1.0"
edition = "2021"
publish = false

[dependencies]
serde = { version = "=1.0.229", features = ["derive"] }
serde_json = { version = "=1.0.154", features = ["float_roundtrip", "preserve_order"] }
serde_repr = "=0.1.21"
json-ext = "=0.3.0"
