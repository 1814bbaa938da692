[package]
name = "latch"
version = "0.1.0"
edition = "2021"
publish = false

[dependencies]
anchor-lang = { version = "=1.2.2", features = ["event-cpi"] }
anchor-spl = "=1.2.2"
sha2 = "0.10.9"
chrono = "0.4.45"
serde_json = "1.0.154"
tiny_http = "0.12.0"
solana-keypair = "*"
solana-signer = "*"
solana-message = "*"
solana-transaction = "*"
