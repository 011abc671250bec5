[package]
name = "zdftext"
version = "0.1.0"
edition = "2021"
publish = false

[dependencies]
html-escape = "*"
termion = "*"
html_parser = "*"
