[package]
name = "crypto_workbench"
version = "0.1.0"
edition = "2021"
publish = false

[dependencies]
base64 = "0.22"
cryptoxide = "0.4"
hex = "0.4"
pallas = "0.32"
regex = "1"
secp256k1 = { version = "0.30", features = ["rand"] }
sha2 = "0.10"
thiserror = "2"
