[package]
name = "chat_relay"
version = "0.1.0"
edition = "2021"
publish = false

[dependencies]
ollama-rs = { version = "*", features = ["stream"] }
futures-util = "0.3"
serde = { version = "1", features = ["derive"] }
tokio = { version = "1", features = ["sync"] }
tauri = { version = "2", default-features = false }
