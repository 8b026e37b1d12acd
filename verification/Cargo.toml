[package]
name = "rawg"
version = "0.1.0"
edition = "2021"
publish = false

[dependencies]
crossterm = "*"
dirs = "*"
ratatui = "*"
secrecy = "*"
