[package]
name = "coinboard"
version = "0.1.0"
edition = "2021"
publish = false

[dependencies]
unicode-width = "=0.1.14"
ratatui = "0.30"
crossterm = "0.29"
tui-textarea = { version = "=0.4.0", default-features = false, features = ["ratatui"] }
tokio = { version = "1", features = ["full"] }
binance-rs-async = "1.3"
color-eyre = "0.6"
env_logger = "0.11"
log = "0.4"
