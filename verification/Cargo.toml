[package]
name = "veilstar_wager"
version = "0.1.0"
edition = "2021"
publish = false

[dependencies]
soroban-sdk = { version = "25", features = ["testutils"] }
