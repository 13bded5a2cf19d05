[package]
name = "godotup"
version = "0.1.0"
edition = "2021"
publish = false

[dependencies]
anyhow = "1"
dirs = "5"
indicatif = "0.17"
reqwest = "0.11"
serde = { version = "1", features = ["derive"] }
serde_yaml = "0.9"
zip = { version = "0.6", default-features = false, features = ["deflate"] }
