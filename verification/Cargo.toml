[package]
name = "ore_core"
version = "0.1.0"
edition = "2021"
publish = false

[dependencies]
solana-program = "=2.3.0"
solana-sdk = "=2.3.1"
spl-token = "=6.0.0"
borsh = "=1.8.1"
serde = { version = "1", features = ["derive"] }
serde_json = "1"
toml = "0.8"
clap = { version = "4", features = ["derive"] }
thiserror = "1"
bincode = "1"
async-trait = "0.1"
tokio = { version = "1", features = ["rt", "time", "macros"] }

[dev-dependencies]
spl-associated-token-account = "6"
