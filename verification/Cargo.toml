[package]
name = "cooldown_relay"
version = "0.1.0"
edition = "2021"
publish = false

[dependencies]
serde_json = "1"
poise = "0.6"
serenity = "0.12"
tokio = { version = "1", features = ["macros", "rt-multi-thread"] }
reqwest = { version = "0.12", default-features = false, features = ["json", "rustls-tls"] }
dotenv = "0.15"
