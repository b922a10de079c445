[package]
name = "presale_signer"
version = "0.1.0"
edition = "2021"
publish = false

[dependencies]
ethers-core = "*"
ethers-signers = "*"
ethers-providers = "*"
serde = { version = "*", features = ["derive"] }
serde_json = "*"
tokio = { version = "*", features = ["rt-multi-thread", "macros"] }
