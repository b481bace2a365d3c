[package]
name = "sol_gateway"
version = "0.1.0"
edition = "2021"
publish = false

[dependencies]
solana-sdk = "=2.3.1"
spl-token = { version = "=6.0.0", features = ["no-entrypoint"] }
bs58 = "=0.5.1"
base64 = "=0.22.1"
serde = { version = "=1.0.229", features = ["derive"] }
axum = "=0.8.9"
tokio = { version = "=1.53.2", features = ["rt-multi-thread", "macros", "net"] }
