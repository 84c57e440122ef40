[package]
name = "tx_sender"
version = "0.1.0"
edition = "2021"
publish = false

[dependencies]
bs58 = "=0.5.1"
rand = "=0.10.3"
bincode = "1"
log = "*"
thiserror = "*"
serde_json = "*"
reqwest = { version = "*", default-features = false, features = ["json"] }
tokio = { version = "*", features = ["time"] }
solana-commitment-config = "2"
solana-compute-budget-interface = "*"
solana-instruction = "2"
solana-keypair = "2"
solana-message = "2"
solana-program = "2"
solana-pubkey = "2"
solana-signature = "2"
solana-signer = "2"
solana-system-interface = "*"
solana-transaction = "2"
solana-transaction-error = "2"
