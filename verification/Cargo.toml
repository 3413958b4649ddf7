[package]
name = "guit"
version = "0.1.0"
edition = "2021"
publish = false

[dependencies]
argh = "0.1"
crossterm = "0.27"
git2 = { version = "0.18", default-features = false }
ratatui = "0.26"
serde = { version = "1", features = ["derive"] }
toml = "0.8"
