[package]
name = "gravity_particles"
version = "0.1.0"
edition = "2021"
publish = false

[dependencies]
anyhow = "1"
bytemuck = "1"
cgmath = "0.18"
rand = "0.8"
wgpu = "29"
winit = "0.30"
