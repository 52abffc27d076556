[package]
name = "key_agreement"
version = "0.1.0"
edition = "2021"
publish = false

[dependencies]
blake2 = "0.9"
rand = "0.8"
x25519-dalek = { version = "2", features = ["static_secrets"] }
