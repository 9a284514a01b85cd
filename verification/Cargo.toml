[package]
name = "persona_bot"
version = "0.1.0"
edition = "2021"
publish = false
rust-version = "1.95"

[dependencies]
anyhow = "=1.0.104"
chrono = { version = "=0.4.45", features = ["serde"] }
dotenv = "=0.15.0"
rand = "=0.8.8"
reqwest = { version = "=0.12.28", features = ["json"] }
rig-core = "0.6"
serde = { version = "=1.0.229", features = ["derive"] }
serde_json = "=1.0.154"
takecell = "=0.1.1"
teloxide = "=0.17.0"
tokio = { version = "=1.54.1", features = ["full"] }
