[package]
name = "chat_core"
version = "0.1.0"
edition = "2021"
publish = false

[dependencies]
reqwest = { version = "*", default-features = false, features = ["json"] }
serde = { version = "*", features = ["derive"] }
serde_json = "*"
termion = "*"
tokio = { version = "*", features = ["rt-multi-thread", "macros"] }
