[package]
name = "frame_runner"
version = "0.1.0"
edition = "2021"
publish = false

[dependencies]
futures = "0.3"
spirv-std = "*"
wgpu = "0.6"
wgpu-subscriber = "0.1"
winit = "0.23"
