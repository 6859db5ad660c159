[package]
name = "mood"
version = "0.1.0"
edition = "2021"
publish = false

[dependencies]
color-eyre = "0.6"
crossbeam-channel = "0.5"
crossterm = "0.28"
dirs = "5"
lofty = "0.22"
rand = "0.9"
ratatui = { version = "0.29", features = ["unstable-widget-ref"] }
rusqlite = "0.32"
uuid = { version = "1", features = ["v4"] }
