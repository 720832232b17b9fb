[package]
name = "anilist_bot"
version = "0.1.0"
edition = "2021"
publish = false

[dependencies]
serde = { version = "1", features = ["derive"] }
serde_json = "1"
reqwest = { version = "0.11", default-features = false, features = ["json", "rustls-tls"] }
serenity = "0.11"
tokio = { version = "1", features = ["rt-multi-thread", "macros"] }
dotenv = "0.15"
