[package]
name = "wgpu_learn"
version = "0.1.0"
edition = "2021"
publish = false

[dependencies]
bytemuck = { version = "=1.25.2", features = ["derive"] }
pollster = "=1.0.1"
wgpu = "=29.0.4"
winit = "=0.30.13"
