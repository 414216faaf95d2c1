[package]
name = "orbital_sandbox"
version = "0.1.0"
edition = "2021"
publish = false

[dependencies]
bevy = { version = "=0.15.3", default-features = false, features = ["bevy_ui", "bevy_text", "bevy_gizmos", "bevy_window", "bevy_render", "bevy_core_pipeline", "bevy_sprite", "default_font"] }
