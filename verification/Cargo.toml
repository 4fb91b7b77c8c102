[package]
name = "commit_assistant"
version = "0.1.0"
edition = "2021"
publish = false

[dependencies]
anyhow = "*"
ollama-rs = "*"
requestty = "*"
tokio = { version = "*", features = ["macros", "rt"] }
