[package]
name = "pong"
version = "0.1.0"
edition = "2021"
publish = false

[dependencies]
bytemuck = "1"
glam = "0.27"
pollster = "0.3"
wgpu = "0.20"
winit = "0.30"
