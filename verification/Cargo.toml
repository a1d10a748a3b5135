[package]
name = "eth_transfer"
version = "0.1.0"
edition = "2021"
publish = false

[dependencies]
ecdsa = "=0.16.9"
ethers-core = "=2.0.14"
ethers-signers = "=2.0.14"
ethers-providers = "=2.0.14"
ethers-middleware = "=2.0.14"
hex = "=0.4.3"
dotenv = "=0.15.0"
eyre = "=0.6.14"
url = "=2.5.8"
tokio = { version = "=1.53.2", features = ["macros", "rt-multi-thread"] }
