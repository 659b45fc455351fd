[package]
name = "human_in_the_loop"
version = "0.1.0"
edition = "2021"
publish = false

[dependencies]
anyhow = "*"
async-trait = "*"
clap = { version = "*", features = ["derive", "env"] }
futures-util = "*"
reqwest = { version = "=0.13.5", default-features = false, features = ["json"] }
rust-mcp-sdk = "=2.0.0"
serde = { version = "*", features = ["derive"] }
serde_json = "*"
serenity = { version = "=0.12.5", features = ["collector"] }
tokio = { version = "*", features = ["full"] }
tokio-tungstenite = "=0.30.0"
