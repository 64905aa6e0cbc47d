[package]
name = "epub2md"
version = "0.1.0"
edition = "2021"
publish = false

[dependencies]
html2md = "*"
