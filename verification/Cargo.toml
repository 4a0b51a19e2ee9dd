[package]
name = "cubetimer"
version = "0.1.0"
edition = "2021"
publish = false

[dependencies]
anyhow = "*"
crossterm = "*"
csv = "*"
dirs = "*"
rand = "*"
ratatui = "*"
rodio = "*"
