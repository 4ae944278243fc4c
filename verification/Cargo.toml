[package]
name = "triangle_setup"
version = "0.1.0"
edition = "2021"
publish = false

[dependencies]
env_logger = "0.10"
wgpu = "0.16"
winit = { version = "0.28", default-features = false, features = ["x11"] }
