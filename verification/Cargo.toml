[package]
name = "orbit_cube"
version = "0.1.0"
edition = "2021"
publish = false

[dependencies]
anyhow = "1"
bytemuck = { version = "1", features = ["derive"] }
glam = "*"
image = { version = "*", default-features = false, features = ["png"] }
log = "0.4"
notify = "*"
pollster = "*"
wgpu = "*"
winit = "*"
