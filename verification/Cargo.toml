[package]
name = "particle_gravity"
version = "0.1.0"
edition = "2021"
publish = false

[dependencies]
bytemuck = "1"
cgmath = "0.18"
env_logger = "0.10"
log = "0.4"
rand = "0.8"
wgpu = "0.16"
winit = "0.28"
