[package]
name = "nordvpn_tui"
version = "0.1.0"
edition = "2021"
publish = false

[dependencies]
clap = { version = "*", features = ["derive"] }
crossterm = "*"
dotenv = "*"
ratatui = "*"
serde = { version = "*", features = ["derive"] }
toml = "*"
