[package]
name = "dkg-gadget"
version = "0.1.0"
edition = "2021"
publish = false

[dependencies]
curv-kzen = "=0.9.0"
ethereum-types = "=0.13.1"
futures = "0.3"
log = "0.4"
multi-party-ecdsa = "=0.8.1"
parity-scale-codec = { version = "=3.7.5", features = ["derive"] }
round-based = { version = "=0.1.7", features = ["async-runtime"] }
serde = { version = "1", features = ["derive"] }
serde_json = "1"
sp-core = "=7.0.0"
substrate-bip39 = "=0.4.4"
