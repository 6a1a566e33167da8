[package]
name = "glyph_rain"
version = "0.1.0"
edition = "2021"
publish = false

[dependencies]
rand = "0.8"
ezemoji = "*"
crossterm = "*"
clap = { version = "*", features = ["derive"] }
