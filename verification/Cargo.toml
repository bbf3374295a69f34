[package]
name = "nitidus"
version = "0.1.0"
edition = "2021"
publish = false

[dependencies]
clap = { version = "4", features = ["derive"] }
color-eyre = "0.6"
crossterm = "0.28"
directories = "5"
figment = { version = "0.10", features = ["toml", "env"] }
ratatui = "0.29"
serde = { version = "1", features = ["derive"] }
serde_with = "3"
tokio = { version = "1", features = ["full"] }
tracing = "0.1"
tracing-appender = "0.2"
tracing-error = "0.2"
tracing-subscriber = { version = "0.3", features = ["env-filter"] }
tui-logger = { version = "0.14", features = ["tracing-support"] }
