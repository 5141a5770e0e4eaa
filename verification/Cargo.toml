[package]
name = "boids"
version = "0.1.0"
edition = "2021"
publish = false

[dependencies]
bytemuck = "1"
cgmath = "0.17"
failure = "0.1"
futures = "0.3"
image = "0.23"
rand = "0.7"
tobj = "2"
wgpu = "0.6"
winit = "0.22"
