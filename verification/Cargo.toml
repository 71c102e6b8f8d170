[package]
name = "polynomial_finder"
version = "0.1.0"
edition = "2021"
publish = false

[dependencies]
itertools = "*"
peroxide = "*"
ratatui = "*"
regex = "*"
tui-input = "*"
