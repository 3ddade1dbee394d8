[package]
name = "kubetui"
version = "0.1.0"
edition = "2021"
publish = false

[dependencies]
crossterm = "0.27"
fakeit = "1"
itertools = "0.12"
ratatui = "0.26"
unicode-width = "0.1"
