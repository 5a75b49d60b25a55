[package]
name = "escrow_client"
version = "0.1.0"
edition = "2021"
publish = false

[dependencies]
anyhow = "=1.0.104"
async-utility = "=0.3.2"
cdk = { version = "=0.6.1", default-features = false, features = ["wallet"] }
dotenv = "=0.15.0"
env_logger = "=0.11.11"
hex = "=0.4.3"
log = "=0.4.34"
nostr-sdk = { version = "=0.42.0", features = ["nip59"] }
serde_json = "=1.0.154"
tokio = { version = "=1.54.1", features = ["rt-multi-thread", "macros", "time", "sync"] }
