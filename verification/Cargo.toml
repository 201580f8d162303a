[package]
name = "frame_session"
version = "0.1.0"
edition = "2021"
publish = false

[dependencies]
env_logger = "=0.11.11"
futures = "=0.3.34"
imgui = "=0.12.0"
imgui-wgpu = "=0.28.0"
imgui-winit-support = "=0.13.0"
wgpu = "=29.0.4"
winit = "=0.30.13"
