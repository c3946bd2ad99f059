[package]
name = "fastdata_indexer"
version = "0.1.0"
edition = "2021"
publish = false

[dependencies]
serde_json = "1"
fastnear-primitives = "*"
scylla = { version = "1", features = ["rustls-023"] }
rustls = "0.23"
anyhow = "1"
futures = "0.3"
tokio = { version = "1", features = ["macros", "rt-multi-thread", "sync"] }
tracing = "0.1"
tracing-subscriber = { version = "0.3", features = ["env-filter"] }
dotenv = "0.15"
ctrlc = "3"
reqwest = "*"
fastnear-neardata-fetcher = "*"
