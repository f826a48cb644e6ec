[package]
name = "neural_control"
version = "0.1.0"
edition = "2021"
publish = false

[dependencies]
serde = { version = "=1.0.229", features = ["derive"] }
serde_json = "=1.0.154"
rand = "=0.8.8"
rand_distr = "=0.4.3"
bevy = { version = "=0.9.1", default-features = false, features = ["bevy_asset", "bevy_scene", "bevy_gltf", "bevy_render", "bevy_core_pipeline", "bevy_pbr"] }
bevy_rapier3d = { version = "=0.20.0", default-features = false, features = ["dim3", "async-collider"] }
bevy-scene-hook = "=5.2.0"
bevy-inspector-egui = { version = "=0.17.0", default-features = false }
