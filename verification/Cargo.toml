[package]
name = "glyph_load"
version = "0.1.0"
edition = "2021"
publish = false

[dependencies]
font-types = "=0.0.6"
