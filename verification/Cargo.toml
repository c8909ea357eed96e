[package]
name = "bitcoin_keygen"
version = "0.1.0"
edition = "2021"
publish = false

[dependencies]
bip39 = "2"
bitcoin = "0.32"
chrono = "0.4"
getrandom = "0.3"
