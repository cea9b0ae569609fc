[package]
name = "claim_signer"
version = "0.1.0"
edition = "2021"

[dependencies]
async-trait = "0.1"
