[package]
name = "dht_core"
version = "0.1.0"
edition = "2021"
publish = false

[dependencies]
chrono = "=0.4.6"
url = "=2.5.8"
serde_json = "=1.0.47"
multihash = "=0.8.0"
rust-base58 = "=0.0.4"
