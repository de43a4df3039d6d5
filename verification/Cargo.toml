[package]
name = "render_core"
version = "0.1.0"
edition = "2021"
publish = false

[dependencies]
wgpu = "0.13"
winit = "0.26"
cgmath = "0.18"
bytemuck = { version = "1", features = ["derive"] }
image = "0.24"
tokio = { version = "1", features = ["rt-multi-thread", "macros"] }
env_logger = "0.9"
anyhow = "1"
