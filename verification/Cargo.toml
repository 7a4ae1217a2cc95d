[package]
name = "tw_keypair"
version = "0.1.0"
edition = "2021"
publish = false

[dependencies]
k256 = { version = "0.13", features = ["ecdsa"] }
starknet-crypto = "0.6"
starknet-ff = "0.3"
zeroize = "1"
