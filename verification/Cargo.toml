[package]
name = "matmul_wgpu"
version = "0.1.0"
edition = "2021"
publish = false

[dependencies]
wgpu = "=0.17.2"
bytemuck = "1"
pollster = "0.3"
rand = "0.8"
