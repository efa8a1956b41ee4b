[package]
name = "nft_bridge"
version = "0.1.0"
edition = "2021"
publish = false

[dependencies]
ethers = { version = "2.0", default-features = false }
ethers-core = "2.0"
hex = "0.4"
serde_json = "1"
serde = { version = "1", features = ["derive"] }
anyhow = "1"
toml = "*"
attohttpc = { version = "*", default-features = false }
web3 = { version = "0.19", default-features = false, features = ["http"] }
poem = "*"
poem-openapi = { version = "*", features = ["swagger-ui"] }
tokio = { version = "1", features = ["macros", "rt-multi-thread"] }
env_logger = "*"
