[package]
name = "validators_ip_info"
version = "0.1.0"
edition = "2021"
publish = false

[dependencies]
anyhow = "1"
csv = "1"
dotenv = "0.15"
figment = { version = "0.10", features = ["env"] }
log = "0.4"
progress = "0.2"
reqwest = { version = "=0.12.28", default-features = false }
serde = { version = "1", features = ["derive"] }
serde_json = "1"
solana-rpc-client = { version = "=3.0.14", default-features = false }
solana-rpc-client-api = { version = "=3.0.14", default-features = false }
tokio = { version = "1", features = ["macros", "rt-multi-thread"] }
tracing = "0.1"
tracing-subscriber = { version = "0.3", default-features = false, features = ["env-filter", "fmt", "std"] }
