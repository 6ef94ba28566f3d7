[package]
name = "planet_mesh"
version = "0.1.0"
edition = "2021"
publish = false

[dependencies]
bevy = { version = "0.8", default-features = false, features = ["bevy_asset", "bevy_winit", "render", "x11"] }
bevy-inspector-egui = "0.13"
bevy_rapier3d = "0.16"
noise = { version = "0.7", default-features = false }
