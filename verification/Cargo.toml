[package]
name = "tetris"
version = "0.1.0"
edition = "2021"
publish = false

[dependencies]
rand = "0.8"
winit = "0.29"
softbuffer = "0.4"
tiny-skia = "0.11"
