[package]
name = "marble_bros"
version = "0.1.0"
edition = "2021"
publish = false

[dependencies]
bevy = { version = "=0.5.0", default-features = false, features = ["render", "bevy_wgpu", "bevy_winit", "png", "x11"] }
bevy_input = "=0.5.0"
bevy_prototype_lyon = "=0.3.1"
bevy_rapier2d = "=0.10.2"
