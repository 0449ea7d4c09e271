[package]
name = "egui_wgpu_backend"
version = "0.1.0"
edition = "2021"
publish = false

[dependencies]
bincode = "=1.3.3"
bytemuck = "1"
egui = "0.10"
wgpu = "0.6"
