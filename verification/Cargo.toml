[package]
name = "engine"
version = "0.1.0"
edition = "2021"
publish = false

[dependencies]
bytemuck = { version = "1", features = ["derive"] }
wgpu = "0.12"
wgpu_glyph = "0.16"
winit = "0.26"
