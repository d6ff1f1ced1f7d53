[package]
name = "gr_raytracer"
version = "0.1.0"
edition = "2021"
publish = false

[dependencies]
bytemuck = { version = "*", features = ["derive"] }
env_logger = "*"
glam = "*"
image = "*"
indicatif = "*"
pixels = "*"
pollster = "*"
rand = "*"
wgpu = "*"
winit = "*"
