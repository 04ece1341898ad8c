[package]
name = "sceneview"
version = "0.1.0"
edition = "2021"
publish = false

[dependencies]
glam = { version = "0.29", features = ["bytemuck"] }
nalgebra = "0.33"
bytemuck = "1"
image = { version = "0.25", default-features = false, features = ["png", "jpeg"] }
tobj = "4"
wgpu = "23"
winit = "0.30"
egui = "0.30"
egui-wgpu = "0.30"
egui-winit = "0.30"
pollster = "0.4"
