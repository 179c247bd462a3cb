[package]
name = "console_bridge"
version = "0.1.0"
edition = "2021"
publish = false

[dependencies]
anyhow = "*"
axum = "*"
clap = { version = "*", features = ["derive", "env"] }
iii-sdk = "*"
mime_guess = "*"
rust-embed = "*"
serde_json = "*"
tokio = { version = "*", features = ["macros", "rt-multi-thread", "signal", "net"] }
tower-http = { version = "*", features = ["cors"] }
tracing = "*"
tracing-subscriber = { version = "*", features = ["env-filter"] }
