[package]
name = "account_gateway"
version = "0.1.0"
edition = "2021"
publish = false

[dependencies]
uuid = "1"
actix-web = "4"
async-nats = "*"
serde = { version = "1", features = ["derive"] }
serde_json = "1"
anyhow = "1"
tracing = "0.1"
