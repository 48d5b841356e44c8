[package]
name = "wallet_dashboard"
version = "0.1.0"
edition = "2021"
publish = false

[dependencies]
alloy = { version = "1", default-features = false, features = ["std", "dyn-abi"] }
clear-signing = { version = "0.1", default-features = false }
rand = "0.8"
secrecy = "0.10"
tokio = { version = "1", features = ["time"] }
tracing = "0.1"
url = "2"
