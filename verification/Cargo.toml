[package]
name = "ai_channel"
version = "0.1.0"
edition = "2021"
publish = false

[dependencies]
anyhow = "1"
async-openai = { version = "=0.29.6", features = ["byot"] }
backoff = "0.4"
serde = { version = "1", features = ["derive"] }
tokio = { version = "1", features = ["rt", "sync", "time", "macros"] }
tracing = "0.1"
twilight-gateway = "=0.17.1"
twilight-http = "=0.17.1"
twilight-model = "=0.17.1"
