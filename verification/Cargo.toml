[package]
name = "btop"
version = "0.1.0"
edition = "2021"

[dependencies]
battery = "0.7"
clap = { version = "4", features = ["derive"] }
crossterm = "0.27"
ratatui = "0.23"
