[package]
name = "percent_change"
version = "0.1.0"
edition = "2021"
publish = false

[dependencies]
crossterm = "0.28"
ratatui = "0.28"
tui-textarea = "0.6"
