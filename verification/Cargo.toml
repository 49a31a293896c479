[package]
name = "renderer"
version = "0.1.0"
edition = "2021"
publish = false

[dependencies]
uuid = { version = "=1.27.0", features = ["v4"] }
nalgebra = "=0.32.6"
wgpu = "=0.17.2"
winit = { version = "=0.28.7", default-features = false, features = ["x11"] }
pollster = "=0.3.0"
bytemuck = "=1.25.2"
