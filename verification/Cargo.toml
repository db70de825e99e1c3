[package]
name = "template_engine"
version = "0.1.0"
edition = "2021"
publish = false

[dependencies]
bytemuck = "1"
glow = "*"
glutin = "0.32"
glutin-winit = "0.5"
nalgebra = "*"
raw-window-handle = "0.6"
thiserror = "*"
tracing = "0.1"
tracing-subscriber = "0.3"
winit = "0.30"
