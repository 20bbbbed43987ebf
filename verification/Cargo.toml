[package]
name = "peak"
version = "0.1.0"
edition = "2021"
publish = false

[dependencies]
arrow = "=59.3.1"
parquet = "=59.3.1"
datafusion = "=55.2.0"
ratatui = "=0.29.0"
tui-textarea = "=0.7.0"
tokio = { version = "=1.54.1", features = ["rt-multi-thread"] }
color-eyre = "=0.6.5"
clap = { version = "=4.6.7", features = ["derive"] }

[dev-dependencies]
bytes = "=1.12.1"
