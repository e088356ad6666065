[package]
name = "solana_aggregator"
version = "0.1.0"
edition = "2021"
publish = false

[dependencies]
chrono = "=0.4.45"
solana-sdk = { version = "=2.3.1", default-features = false }
actix-web = { version = "4", default-features = false, features = ["macros"] }
tokio = { version = "1", features = ["rt-multi-thread"] }
futures-util = "0.3"
rusqlite = "0.31"
serde = { version = "1", features = ["derive"] }
serde_json = "1"
envy = "0.4"
url = { version = "2", features = ["serde"] }
