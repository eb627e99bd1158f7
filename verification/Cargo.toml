[package]
name = "statecoin"
version = "0.1.0"
edition = "2021"
publish = false

[dependencies]
bitcoin = { version = "0.30", features = ["rand-std"] }
secp256k1-zkp = { version = "0.9", features = ["rand-std", "bitcoin_hashes"] }
hex = "0.4"
ecies = { version = "0.2", default-features = false, features = ["pure"] }
anyhow = "1"
serde = { version = "1", features = ["derive"] }
serde_json = "1"
chrono = { version = "0.4", default-features = false, features = ["clock"] }
uuid = { version = "1", features = ["v4"] }
clap = { version = "4", features = ["derive"] }
tokio = { version = "1", features = ["rt", "macros", "time"] }
reqwest = { version = "0.11", default-features = false, features = ["json"] }
electrum-client = { version = "0.18", default-features = false }
sqlx = { version = "0.7", default-features = false, features = ["runtime-tokio", "sqlite", "postgres"] }
rocket = { version = "0.5", default-features = false, features = ["json"] }
