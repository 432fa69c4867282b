[package]
name = "transaction_manager"
version = "0.1.0"
edition = "2021"
publish = false

[dependencies]
ethers = "2"
eyre = "0.6"
log = "0.4"
tokio = { version = "1", features = ["time"] }
