[package]
name = "nes_rust_client"
version = "0.1.0"
edition = "2021"
publish = false

[dependencies]
log = "0.4"
prost = "0.12"
prost-types = "0.12"
rand = "0.8"
reqwest = { version = "0.11", default-features = false }
serde_json = "1"
