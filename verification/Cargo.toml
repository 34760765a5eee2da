[package]
name = "render_host"
version = "0.1.0"
edition = "2021"
publish = false

[dependencies]
wgpu = "22"
winit = "0.30"
pollster = { version = "0.3", features = ["macro"] }
env_logger = "0.11"
