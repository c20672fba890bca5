[package]
name = "pye-cli"
version = "0.1.0"
edition = "2021"
publish = false

[dependencies]
solana-pubkey = "=3.0.0"
solana-instruction = "=3.5.1"
solana-system-interface = { version = "=2.0.0", features = ["bincode"] }
solana-sdk = "=3.0.0"
bincode = "=1.3.3"
serde = { version = "=1.0.229", features = ["derive"] }
serde_json = "=1.0.154"
serde_with = "=3.24.0"
clap = { version = "=4.6.7", features = ["derive", "env"] }
tokio = { version = "=1.54.1", features = ["rt-multi-thread", "macros", "time"] }
reqwest = { version = "=0.12.28", default-features = false, features = ["json", "rustls-tls"] }
thiserror = "=2.0.21"
tracing = "=0.1.44"
tracing-subscriber = { version = "=0.3.23", features = ["json", "env-filter"] }
dotenvy = "=0.15.7"
log = "=0.4.35"
