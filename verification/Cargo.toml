[package]
name = "stacker"
version = "0.1.0"
edition = "2021"
publish = false

[dependencies]
bevy = { version = "=0.2.1", default-features = false, features = ["bevy_wgpu", "bevy_winit", "render", "png", "x11"] }
notify = "=5.0.0-pre.2"
