[package]
name = "glium_graphics"
version = "0.1.0"
edition = "2021"
publish = false

[dependencies]
glium = { version = "*", default-features = false }
piston2d-graphics = "*"
piston-texture = "*"
piston-shaders_graphics2d = "*"
shader_version = "*"
image = { version = "*", default-features = false, features = ["png"] }
rusttype = "*"
pistoncore-glutin_window = "*"
piston = "*"
