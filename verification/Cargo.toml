[package]
name = "tx_set"
version = "0.1.0"
edition = "2021"
publish = false

[dependencies]
clap = { version = "4", features = ["derive"] }
thiserror = "*"
stellar-xdr = { version = "*", features = ["curr", "std", "base64"] }
