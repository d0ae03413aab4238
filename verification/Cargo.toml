[package]
name = "gamersbot"
version = "0.1.0"
edition = "2021"
publish = false

[dependencies]
image = "0.24"
reqwest = { version = "0.11", default-features = false, features = ["json", "rustls-tls"] }
serde = { version = "1", features = ["derive"] }
serde_json = "1"
serenity = "0.11"
shell-words = "1"
tokio = { version = "1", features = ["macros", "rt-multi-thread", "process", "fs"] }
toml = "0.8"
tracing = "0.1"
tracing-appender = "0.2"
tracing-subscriber = "0.3"
uuid = { version = "1", features = ["v4"] }
