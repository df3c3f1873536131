[package]
name = "stealth-launch"
version = "0.1.0"
edition = "2021"
publish = false

[dependencies]
anyhow = "=1.0.104"
bs58 = "=0.5.1"
clap = { version = "=4.6.7", features = ["derive"] }
csv = "=1.4.0"
dirs = "=6.0.0"
serde = { version = "=1.0.229", features = ["derive"] }
serde_json = "=1.0.154"
solana-commitment-config = "=3.1.1"
solana-sdk = "=3.0.0"
solana-system-interface = { version = "=2.0.0", features = ["bincode"] }
solana-zk-sdk = "=4.0.0"
spl-associated-token-account = { version = "=8.0.0", features = ["no-entrypoint"] }
spl-token-2022 = { version = "=10.0.0", features = ["no-entrypoint"] }
spl-token-2022-interface = "=2.1.0"
spl-token-confidential-transfer-proof-generation = "=0.5.1"
spl-token-group-interface = "=0.7.1"
thiserror = "=2.0.21"
tokio = { version = "=1.54.1", features = ["macros", "rt-multi-thread"] }
