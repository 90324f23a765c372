[package]
name = "confidential_transfer"
version = "0.1.0"
edition = "2021"
publish = false

[dependencies]
grin_secp256k1zkp = "*"
rand = "0.5"
sha2 = "0.10"
