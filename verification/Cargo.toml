[package]
name = "voice_sessions"
version = "0.1.0"
edition = "2021"
publish = false

[dependencies]
dotenv = "0.15"
serenity = { version = "0.11", default-features = false, features = ["builder", "cache", "client", "gateway", "http", "model", "rustls_backend", "voice"] }
songbird = "0.3"
tokio = { version = "1", features = ["macros", "rt-multi-thread"] }
