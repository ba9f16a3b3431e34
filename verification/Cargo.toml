[package]
name = "window_decor"
version = "0.1.0"
edition = "2021"
publish = false

[dependencies]
vizia = "*"
window-vibrancy = "*"
