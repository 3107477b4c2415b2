[package]
name = "bib_catalog"
version = "0.1.0"
edition = "2021"
publish = false

[dependencies]
sqlite = "=0.37.3"
uuid = { version = "=1.27.0", features = ["v4"] }
crossterm = "=0.28.1"
ratatui = "=0.28.1"
tui-textarea = "=0.6.1"
