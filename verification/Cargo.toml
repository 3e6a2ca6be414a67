[package]
name = "vanity_tx"
version = "0.1.0"
edition = "2021"
publish = false

[dependencies]
ethers-core = "2"
ethers-signers = "2"
ethers-providers = "2"
ethers-middleware = "2"
hex = "0.4"
rlp = "0.5"
tiny-keccak = { version = "2", features = ["keccak"] }
tokio = { version = "1", features = ["rt-multi-thread", "macros", "sync"] }
dotenv = "0.15"
eyre = "0.6"
num_cpus = "1"
