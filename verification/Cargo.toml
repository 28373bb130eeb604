[package]
name = "hexscene"
version = "0.1.0"
edition = "2021"
publish = false

[dependencies]
wgpu = "0.15"
winit = "0.27"
pollster = "0.3"
bytemuck = { version = "1", features = ["derive"] }
log = "0.4"
env_logger = "0.10"
