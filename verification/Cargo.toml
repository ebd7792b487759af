[package]
name = "gardening_gun"
version = "0.1.0"
edition = "2021"
publish = false

[dependencies]
bevy = { version = "=0.10.1", default-features = false, features = ["animation", "bevy_animation", "bevy_asset", "bevy_core_pipeline", "bevy_gltf", "bevy_pbr", "bevy_render", "bevy_scene", "bevy_sprite", "bevy_text", "serialize"] }
bevy_egui = { version = "=0.20.3", default-features = false, features = ["default_fonts"] }
bevy-egui-kbgp = { version = "=0.13.0", default-features = false }
bevy_pkv = "=0.7.0"
bevy_rapier2d = { version = "=0.21.0", default-features = false, features = ["dim2", "async-collider"] }
bevy-tnua = { version = "=0.3.0", default-features = false, features = ["rapier_2d"] }
bevy-yoleck = { version = "=0.9.0", default-features = false, features = ["vpeol_3d"] }
clap = { version = "=4.6.7", features = ["derive"] }
ordered-float = "=3.9.2"
serde = { version = "=1.0.229", features = ["derive"] }
