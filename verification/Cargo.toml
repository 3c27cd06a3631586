[package]
name = "coinswap_maker"
version = "0.1.0"
edition = "2021"
publish = false

[dependencies]
bitcoin = "0.32"
bitcoind = "*"
serde = { version = "*", features = ["derive"] }
serde_cbor = "*"
clap = { version = "*", features = ["derive"] }
