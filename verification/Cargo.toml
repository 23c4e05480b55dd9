[package]
name = "camera_core"
version = "0.1.0"
edition = "2021"
publish = false

[dependencies]
winit = "0.29"
cgmath = "0.18"
tobj = "4"
bytemuck = { version = "1", features = ["derive"] }
