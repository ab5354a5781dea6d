[package]
name = "todoist_sdk"
version = "0.1.0"
edition = "2021"
publish = false

[dependencies]
anyhow = "1"
chrono = { version = "0.4", features = ["serde"] }
chrono-tz = "0.10"
color-eyre = "0.6"
crossterm = "0.28"
flexi_logger = "0.29"
isolang = { version = "2", features = ["serde"] }
log = "0.4"
ratatui = "0.29"
reqwest = "0.12"
serde = { version = "1", features = ["derive"] }
serde_json = "1"
thiserror = "2"
tokio = { version = "1", features = ["macros", "rt-multi-thread"] }
uuid = { version = "1", features = ["v4", "serde"] }
