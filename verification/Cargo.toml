[package]
name = "abacus-base"
version = "0.1.0"
edition = "2021"
publish = false

[dependencies]
async-trait = "*"
ethers = { version = "*", default-features = false }
eyre = "*"
futures-util = "*"
tokio = { version = "*", features = ["rt", "macros"] }
tracing = "*"
