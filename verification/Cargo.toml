[package]
name = "dialogue_core"
version = "0.1.0"
edition = "2021"
publish = false

[dependencies]
serde_json = "1"
serde_cbor = "0.11"
bincode = "1"
