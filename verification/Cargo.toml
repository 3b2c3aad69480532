[package]
name = "vocofo"
version = "0.1.0"
edition = "2021"
publish = false

[dependencies]
crossterm = "*"
ratatui = "*"
serde = { version = "*", features = ["derive"] }
toml = "*"
dirs = "*"
edit = "*"
ssh2 = "*"
suppaftp = "*"
