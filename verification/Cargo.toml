[package]
name = "countdown_tui"
version = "0.1.0"
edition = "2021"
publish = false

[dependencies]
chrono = "*"
color-eyre = "*"
crossterm = "*"
csv = "*"
ratatui = "*"
