[package]
name = "paopu_rs"
version = "0.1.0"
edition = "2021"
publish = false

[dependencies]
bytemuck = { version = "1.4", features = ["derive"] }
cgmath = "0.18"
futures = "0.3"
lazy_static = "1.4"
wgpu = "0.7"
winit = "0.24"
