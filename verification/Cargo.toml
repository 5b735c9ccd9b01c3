[package]
name = "crypto_sign"
version = "0.1.0"
edition = "2021"
publish = false

[dependencies]
blst = "0.3"
ed25519-dalek = "2"
sha2 = "0.10"
hex = "0.4"
ethereum_ssz = "*"
ethereum_ssz_derive = "*"
thiserror = "2"
