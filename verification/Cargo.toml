[package]
name = "rlib"
version = "0.1.0"
edition = "2021"
publish = false

[dependencies]
gl = "0.14"
glam = "*"
image = { version = "0.24", default-features = false, features = ["png"] }
log = "0.4"
sdl2 = "0.35"
simplelog = "0.12"
