[package]
name = "gemini_client"
version = "0.1.0"
edition = "2021"
publish = false

[dependencies]
serde_json = "=1.0.154"
reqwest = { version = "=0.12.28", features = ["json"] }
tokio = { version = "=1.54.1", features = ["macros", "rt-multi-thread"] }
bevy = { version = "0.18", default-features = false }
