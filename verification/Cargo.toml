[package]
name = "glyph_stage"
version = "0.1.0"
edition = "2021"
publish = false

[dependencies]
fontdue = "*"
image = { version = "*", default-features = false, features = ["png"] }
miniquad = "0.4"
