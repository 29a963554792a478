[package]
name = "drift_ffi"
version = "0.1.0"
edition = "2021"
publish = false

[dependencies]
abi_stable = "=0.11.3"
solana-sdk = "=2.3.1"
