[package]
name = "keyboard_piano"
version = "0.1.0"
edition = "2021"
publish = false

[dependencies]
cpal = "*"
winit = "*"
