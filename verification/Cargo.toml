[package]
name = "solarium_bootstrap"
version = "0.1.0"
edition = "2021"
publish = false

[dependencies]
chrono = { version = "=0.4.45", default-features = false, features = ["std"] }
clap = { version = "=4.6.7", features = ["string"] }
rpassword = "=7.5.4"
solana-account = "=3.4.0"
solana-clock = "=3.2.1"
solana-cluster-type = "=3.2.1"
solana-epoch-schedule = "=3.4.0"
solana-fee-calculator = "=3.4.0"
solana-genesis-config = { version = "=3.0.0", features = ["serde"] }
solana-inflation = "=3.3.0"
solana-keypair = "=3.1.2"
solana-native-token = "=3.0.0"
solana-poh-config = "=3.1.1"
solana-pubkey = "=3.0.0"
solana-rent = "=3.1.0"
solana-sdk-ids = "=3.1.0"
solana-signer = "=3.0.1"
solana-stake-interface = "=2.0.2"
solana-stake-program = { version = "=3.0.14", default-features = false }
solana-vote-interface = "=3.0.0"
solana-vote-program = { version = "=3.0.14", default-features = false }
tiny-bip39 = "=2.0.0"
