[package]
name = "kafka_tui"
version = "0.1.0"
edition = "2021"
publish = false

[dependencies]
clap = { version = "*", features = ["derive"] }
color-eyre = "*"
crossterm = { version = "*", features = ["event-stream"] }
futures = "*"
ratatui = "*"
rdkafka = "*"
tokio = { version = "*", features = ["macros", "rt-multi-thread", "sync", "time"] }
