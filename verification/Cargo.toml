[package]
name = "openai_client"
version = "0.1.0"
edition = "2021"
publish = false

[dependencies]
reqwest = { version = "=0.13.5", features = ["gzip", "brotli", "http2"] }
async-openai = { version = "=0.42.1", features = ["completions", "chat-completion"] }
backoff = { version = "=0.4.0", features = ["tokio"] }
tiktoken-rs = "=0.12.1"
