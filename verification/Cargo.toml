[package]
name = "token_issuer"
version = "0.1.0"
edition = "2021"
publish = false

[dependencies]
solana-sdk = "=1.18.26"
solana-program = "=1.18.26"
spl-token-2022 = "=1.0.0"
spl-associated-token-account = "=2.3.0"
mpl-token-metadata = "=4.1.2"
serde = { version = "1", features = ["derive"] }
serde_json = "1"
reqwest = { version = "0.11", default-features = false, features = ["blocking", "json", "rustls-tls"] }
bincode = "1"
base64 = "0.21"
