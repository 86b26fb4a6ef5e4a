[package]
name = "terrain_engine"
version = "0.1.0"
edition = "2021"
publish = false

[dependencies]
bytemuck = { version = "1", features = ["derive"] }
cgmath = "0.18"
noise = "0.8"
wgpu = "0.19"
winit = "0.28"
