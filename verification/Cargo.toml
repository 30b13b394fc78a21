[package]
name = "equailizer"
version = "0.1.0"
edition = "2021"
publish = false

[dependencies]
anyhow = "1"
askama = "*"
chrono = { version = "0.4", features = ["serde"] }
chrono-tz = "*"
clap = { version = "4", features = ["derive"] }
display_json = "*"
jmap-client = "*"
rand = "0.9"
reqwest = { version = "0.12", features = ["json"] }
rust_decimal = "1"
serde = { version = "1", features = ["derive"] }
serde_json = "1"
tokio = { version = "1", features = ["macros", "rt-multi-thread"] }
tracing = "0.1"
tracing-appender = "0.2"
tracing-subscriber = "0.3"
uuid = { version = "1", features = ["v4"] }
