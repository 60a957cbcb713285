[package]
name = "satty_core"
version = "0.1.0"
edition = "2021"
publish = false

[dependencies]
image = "*"
chrono = "*"
font8x8 = "*"
keycode = "*"
