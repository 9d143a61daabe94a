[package]
name = "xmlfmt"
version = "0.1.0"
edition = "2021"
publish = false

[dependencies]
anyhow = "*"
atty = "*"
gumdrop = "*"
xmlem = "*"
