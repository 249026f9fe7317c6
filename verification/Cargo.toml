[package]
name = "engine"
version = "0.1.0"
edition = "2021"
publish = false

[dependencies]
bevy = { version = "0.17", default-features = false, features = ["std", "bevy_asset", "bevy_core_pipeline", "bevy_gltf", "bevy_pbr", "bevy_render", "bevy_log", "multi_threaded"] }
