[package]
name = "glutin_opengl_demo"
version = "0.1.0"
edition = "2021"
publish = false

[dependencies]
cgmath = "*"
gl = "*"
glutin = "0.29"
