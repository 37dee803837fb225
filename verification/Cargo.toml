[package]
name = "david_discord_bot_rs"
version = "0.1.0"
edition = "2021"
publish = false

[dependencies]
chrono = { version = "=0.4.45", default-features = false, features = ["clock", "std"] }
regex = "=1.13.1"
serenity = { version = "=0.12.5", default-features = false, features = ["builder", "cache", "chrono", "client", "gateway", "http", "model", "rustls_backend", "voice"] }
songbird = { version = "0.5", features = ["builtin-queue"] }
tokio = { version = "=1.54.1", features = ["macros", "rt-multi-thread"] }
tokio-cron-scheduler = "=0.15.1"
tracing = "=0.1.44"
tracing-subscriber = { version = "=0.3.23", default-features = false, features = ["env-filter", "fmt", "std"] }
