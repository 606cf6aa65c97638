[package]
name = "kannaka_tui"
version = "0.5.8"
edition = "2021"
publish = false

[dependencies]
chrono = "0.4"
crossterm = "0.28"
dirs = "5"
ratatui = "0.29"
serde_json = "1"
toml = "0.8"
