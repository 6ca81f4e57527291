[package]
name = "media_bot"
version = "0.1.0"
edition = "2021"
publish = false

[dependencies]
reqwest = { version = "=0.13.5", default-features = false, features = ["json"] }
serde_json = "=1.0.154"
infer = "=0.22.0"
tokio = { version = "=1.54.1", features = ["macros", "rt-multi-thread", "fs", "io-util"] }
tracing = "=0.1.44"
tracing-subscriber = { version = "=0.3.23", features = ["fmt", "env-filter"] }
dotenvy = "=0.15.7"
anyhow = "=1.0.104"
