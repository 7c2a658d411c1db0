[package]
name = "voxels"
version = "0.1.0"
edition = "2021"
publish = false

[dependencies]
bytemuck = "1"
glam = "0.10"
wgpu = "0.6"
winit = "0.23"
tracing = "0.1"
tracing-subscriber = "0.2"
