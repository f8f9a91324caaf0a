[package]
name = "reply_parts"
version = "0.1.0"
edition = "2021"
publish = false

[dependencies]
anyhow = "*"
async-stream = "*"
futures = "*"
rmcp = "*"
serde_json = "*"
tracing = "*"
