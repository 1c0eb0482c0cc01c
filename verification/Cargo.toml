[package]
name = "reaction_diffusion"
version = "0.1.0"
edition = "2021"
publish = false

[dependencies]
wgpu = "*"
clap = { version = "*", features = ["derive"] }
env_logger = "*"
pollster = "*"
bytemuck = { version = "*", features = ["derive"] }
