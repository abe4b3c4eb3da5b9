[package]
name = "sheet_picker"
version = "0.1.0"
edition = "2021"
publish = false

[dependencies]
calamine = "0.27"
crossterm = "=0.28.1"
ratatui = { version = "=0.29.0", features = ["unstable-widget-ref"] }
