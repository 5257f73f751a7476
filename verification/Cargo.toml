[package]
name = "escrow_native"
version = "0.1.0"
edition = "2021"
publish = false

[dependencies]
solana-program = "=2.3.0"
spl-token = "=8.0.0"
solana-sdk = "=2.3.1"
spl-associated-token-account = "=7.0.0"
borsh = "1"
thiserror = "2"
clap = { version = "4", features = ["derive"] }
colored = "2"
dotenv = "0.15"
tokio = { version = "1", features = ["macros", "rt-multi-thread"] }
