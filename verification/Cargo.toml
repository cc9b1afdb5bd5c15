[package]
name = "lekickerfou"
version = "1.1.0"
edition = "2021"
publish = false

[dependencies]
anyhow = "1"
chrono = { version = "0.4", features = ["serde"] }
clap = { version = "4", features = ["derive"] }
dotenvy = "*"
rand = "0.9"
serde = { version = "1", features = ["derive"] }
serde_json = "1"
serenity = { version = "0.12", default-features = false, features = ["builder", "cache", "client", "gateway", "model", "http", "rustls_backend"] }
thiserror = "*"
tokio = { version = "1", features = ["macros", "rt-multi-thread", "time"] }
tokio-cron-scheduler = "*"
