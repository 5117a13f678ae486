[package]
name = "frostmark"
version = "0.1.0"
edition = "2021"
publish = false

[dependencies]
comrak = { version = "=0.44.0", default-features = false }
html5ever = "=0.39.0"
iced = { version = "=0.13.1", default-features = false }
markup5ever_rcdom = "=0.39.0"
