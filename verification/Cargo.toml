[package]
name = "sapling_crypto"
version = "0.1.0"
edition = "2021"
publish = false

[dependencies]
blake2-rfc = "=0.2.18"
jubjub = "=0.10.0"
ff = "=0.13.1"
