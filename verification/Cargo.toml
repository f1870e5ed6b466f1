[package]
name = "raymarching"
version = "0.1.0"
edition = "2021"
publish = false

[dependencies]
bytemuck = { version = "1", features = ["derive"] }
cgmath = "0.18"
clap = { version = "4", features = ["derive"] }
env_logger = { version = "0.10", default-features = false }
log = "0.4"
pollster = "0.3"
wgpu = "0.17"
winit = { version = "0.28", default-features = false, features = ["x11"] }
