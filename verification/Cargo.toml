[package]
name = "rmpr"
version = "0.1.0"
edition = "2021"
publish = false

[dependencies]
rodio = "*"
audiotags = "*"
crossterm = "*"
ratatui = "*"
dirs = "*"
toml = "*"
serde = { version = "*", features = ["derive"] }
