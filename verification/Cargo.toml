[package]
name = "openai"
version = "0.1.0"
edition = "2021"
publish = false

[dependencies]
bytes = "*"
futures = "*"
reqwest = { version = "*", default-features = false, features = ["json", "stream"] }
serde = { version = "*", features = ["derive"] }
serde_json = "*"
