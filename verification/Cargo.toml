[package]
name = "wgpu_engine"
version = "0.1.0"
edition = "2021"
publish = false

[dependencies]
egui = "0.16"
egui_wgpu_backend = "0.16"
egui_winit_platform = "0.13"
epi = "0.16"
pollster = "0.2"
wgpu = "0.12"
winit = "0.26"
