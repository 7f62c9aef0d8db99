[package]
name = "telegram_mcp"
version = "0.1.0"
edition = "2021"
publish = false

[dependencies]
worker = "*"
futures = "*"
serde = { version = "*", features = ["derive"] }
serde_json = "*"
