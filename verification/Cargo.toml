[package]
name = "gpu_reduce"
version = "0.1.0"
edition = "2021"
publish = false

[dependencies]
bytemuck = { version = "=1.25.2", features = ["extern_crate_alloc"] }
env_logger = "=0.11.11"
pollster = "=1.0.1"
wgpu = "=30.0.1"
