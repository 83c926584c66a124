[package]
name = "ollama_chat"
version = "0.1.0"
edition = "2021"
publish = false

[dependencies]
ollama-rs = "*"
serde = { version = "*", features = ["derive"] }
tokio = { version = "*", features = ["rt-multi-thread", "macros"] }
