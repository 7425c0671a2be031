[package]
name = "tbn_engine"
version = "0.1.0"
edition = "2021"
publish = false

[dependencies]
bytemuck = { version = "1", features = ["derive"] }
cgmath = "0.18"
env_logger = "*"
pollster = "*"
wgpu = "*"
winit = "*"
