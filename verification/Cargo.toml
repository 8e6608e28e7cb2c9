[package]
name = "wallet_funding"
version = "0.1.0"
edition = "2021"
publish = false

[dependencies]
fuels = "=0.66.10"
tokio = { version = "1", default-features = false, features = ["macros", "rt-multi-thread", "time"] }
dotenv = "0.15"
