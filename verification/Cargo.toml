[package]
name = "u2secure"
version = "0.1.0"
edition = "2021"
publish = false

[dependencies]
chrono = "0.4"
dialoguer = "0.11"
colored = "2"
ratatui = "0.29"
crossterm = "0.28"
anyhow = "1"
ctrlc = "3"

[dev-dependencies]
tempfile = "3"
