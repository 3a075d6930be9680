[package]
name = "backup_tags"
version = "0.1.0"
edition = "2021"
publish = false

[dependencies]
chrono = "0.4"
cron-parser = "*"
serde_json = "1"
clap = { version = "4", features = ["derive"] }
color-eyre = "0.6"
tracing = "0.1"
tracing-subscriber = { version = "0.3", features = ["env-filter"] }
tracing-error = "0.2"
