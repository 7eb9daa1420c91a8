[package]
name = "kg_core"
version = "0.1.0"
edition = "2021"
publish = false

[dependencies]
rand = { version = "=0.9.5", features = ["small_rng"] }
bevy = { version = "=0.16.1", default-features = false, features = ["std", "bevy_state", "bevy_color", "bevy_window", "bevy_asset", "bevy_render", "bevy_core_pipeline", "bevy_sprite"] }
