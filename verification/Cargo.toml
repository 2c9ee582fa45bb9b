[package]
name = "rdg"
version = "0.1.0"
edition = "2021"
publish = false

[dependencies]
anyhow = "1"
clap = { version = "4", features = ["derive", "env"] }
crossterm = "*"
notify = "*"
ratatui = "*"
tempfile = "3"
