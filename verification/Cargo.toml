[package]
name = "game_of_life"
version = "0.1.0"
edition = "2021"
publish = false

[dependencies]
anyhow = "=1.0.104"
crossterm = "=0.27.0"
rand = "=0.8.8"
ratatui = "=0.23.0"
