[package]
name = "render_state"
version = "0.1.0"
edition = "2021"
publish = false

[dependencies]
futures = "0.3"
rand = "0.7"
wgpu = "0.6"
winit = "0.22"
