[package]
name = "niri_ui"
version = "0.1.0"
edition = "2021"
publish = false

[dependencies]
tiny-skia = "0.11"
cosmic-text = "*"
ordered-float = "*"
anyhow = "1"
accesskit = "*"
