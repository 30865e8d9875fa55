[package]
name = "undiscovered_yt"
version = "0.1.0"
edition = "2021"
publish = false

[dependencies]
anyhow = "1"
chrono = "0.4"
clap = { version = "4", features = ["derive"] }
colored = "2"
crossterm = "0.27"
directories = "5"
futures = "0.3"
open = "5"
rand = "0.8"
ratatui = "0.23"
serde = { version = "1", features = ["derive"] }
toml = "0.8"
yt-api = "*"
