[package]
name = "hdk"
version = "0.1.0"
edition = "2021"
publish = false

[dependencies]
serde_json = { version = "=1.0.154", features = ["float_roundtrip"] }
serde = { version = "=1.0.229", features = ["derive"] }
bitflags = "=1.3.2"
lazy_static = "=1.5.1"
boolinator = "=2.4.0"
