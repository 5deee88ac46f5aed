[package]
name = "fun-html"
version = "1.0.0"
edition = "2021"
publish = false

[dependencies]
html-escape = "0.2"
maud = "0.26"
salvo = { version = "0.76", default-features = false }
