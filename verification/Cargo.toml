[package]
name = "kinetic_game"
version = "0.1.0"
edition = "2021"
publish = false

[dependencies]
bevy = { version = "=0.17.3", default-features = false, features = ["std", "multi_threaded", "bevy_state", "bevy_window", "bevy_asset", "bevy_color", "bevy_render", "bevy_core_pipeline", "bevy_pbr", "bevy_light", "bevy_camera", "bevy_mesh", "bevy_scene", "bevy_gizmos", "bevy_ui", "bevy_ui_render", "bevy_text", "default_font"] }
bevy_rapier3d = { version = "=0.32.0", default-features = false, features = ["dim3", "async-collider"] }
bevy_rapier2d = { version = "=0.32.0", default-features = false, features = ["dim2"] }
