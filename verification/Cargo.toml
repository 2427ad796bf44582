[package]
name = "privacy_transfer"
version = "0.1.0"
edition = "2021"
publish = false

[dependencies]
sha2 = "=0.11.0"
sha3 = "=0.12.0"
