[package]
name = "commander"
version = "0.1.0"
edition = "2021"
publish = false

[dependencies]
anyhow = "=1.0.104"
async-trait = "=0.1.92"
tokio = { version = "=1.53.2", features = ["io-util"] }
