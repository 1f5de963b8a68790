[package]
name = "metamusic"
version = "0.1.0"
edition = "2021"
publish = false

[dependencies]
crossterm = "0.28"
id3 = "=1.17.2"
image = "=0.25.10"
ratatui = "0.29"
ratatui-image = "=8.0.2"
