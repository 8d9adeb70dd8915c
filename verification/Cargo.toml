[package]
name = "simple_git_tui"
version = "0.1.0"
edition = "2021"
publish = false

[dependencies]
ansi-to-tui = "*"
anyhow = "1"
crossterm = "*"
dirs-next = "2"
ratatui = "*"
serde = { version = "1", features = ["derive"] }
toml = "*"
