[package]
name = "visper_graphics"
version = "0.1.0"
edition = "2021"

[dependencies]
wgpu = "0.4"
winit = "0.20"
