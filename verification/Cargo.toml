[package]
name = "render_core"
version = "0.1.0"
edition = "2021"
publish = false

[dependencies]
bytemuck = { version = "=1.25.2", features = ["derive"] }
cgmath = "=0.18.0"
wgpu = { version = "=30.0.1", features = ["noop"] }
