[package]
name = "changegate"
version = "0.1.0"
edition = "2021"
publish = false

[dependencies]
anyhow = "*"
chrono = "*"
crossterm = "*"
notify = "*"
portable-pty = "*"
ratatui = "*"
similar = "*"
vt100 = "*"
walkdir = "*"
