[package]
name = "subcoin_core"
version = "0.1.0"
edition = "2021"
publish = false

[dependencies]
bitcoin = "0.32"
parity-scale-codec = { version = "3", features = ["derive"] }
sp-crypto-hashing = "0.1"
