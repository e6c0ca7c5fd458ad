[package]
name = "sol_service"
version = "0.1.0"
edition = "2021"
publish = false

[dependencies]
solana-sdk = "=5.0.0"
solana-system-interface = { version = "=3.3.0", features = ["bincode"] }
bs58 = "=0.5.1"
serde = { version = "=1.0.229", features = ["derive"] }
serde_json = "=1.0.151"
actix-web = "=4.15.0"
