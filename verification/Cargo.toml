[package]
name = "ts_agent"
version = "0.1.0"
edition = "2021"
publish = false

[dependencies]
xxhash-rust = { version = "0.8", features = ["xxh3"] }
tokio = { version = "1", features = ["full"] }
anyhow = "1"
log = "0.4"
env_logger = "0.11"
clap = "4"
toml = "0.8"
serde = "1"
serde_derive = "1"
chrono = "0.4"
rusty-leveldb = "*"
async-trait = "0.1"
