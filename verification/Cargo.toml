[package]
name = "mycelium_vr"
version = "0.1.0"
edition = "2021"
publish = false

[dependencies]
uuid = { version = "1", features = ["v4", "serde"] }
serde = { version = "1", features = ["derive"] }
rmp-serde = "1"
thiserror = "2"
bevy_ecs = "0.17"
bevy_reflect = "0.17"
bevy_app = "0.17"
bevy_math = "0.17"
bevy_input = "0.17"
bevy_log = "0.17"
bevy_derive = "0.17"
bevy_transform = "0.17"
bevy_time = "0.17"
bevy_window = "0.17"
bevy_camera = "0.17"
