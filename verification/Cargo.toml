[package]
name = "saddle_vat"
version = "0.1.0"
edition = "2021"
publish = false

[dependencies]
bevy = { version = "=0.18.1", default-features = false, features = ["std", "bevy_pbr", "bevy_asset", "bevy_log", "bevy_render", "bevy_mesh", "bevy_image", "bevy_camera", "bevy_shader", "bevy_core_pipeline"] }
serde = { version = "=1.0.229", features = ["derive"] }
serde_json = "=1.0.154"
thiserror = "=2.0.21"

[dev-dependencies]
approx = "=0.5.1"
