[package]
name = "tui_term"
version = "0.2.0"
edition = "2021"
publish = false

[dependencies]
ratatui = "*"
