[package]
name = "triangle_demo"
version = "0.1.0"
edition = "2021"
publish = false

[dependencies]
sdl2 = "*"
gl = "0.14"
failure = "0.1"
