[package]
name = "consensus_handler"
version = "0.1.0"
edition = "2021"
publish = false

[dependencies]
async-trait = "0.1"
bincode = "1.3.3"
serde = "1"
tokio = { version = "1", features = ["sync"] }
tracing = "0.1"
