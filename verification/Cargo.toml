[package]
name = "uv_texture"
version = "0.1.0"
edition = "2021"
publish = false

[dependencies]
bevy = { version = "=0.15.3", default-features = false, features = ["bevy_pbr", "bevy_window"] }
bevy_rapier3d = { version = "=0.28.0", default-features = false, features = ["dim3"] }
