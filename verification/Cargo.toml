[package]
name = "tactical_game"
version = "0.1.0"
edition = "2021"
publish = false

[dependencies]
bevy = { version = "0.17", default-features = false, features = ["std", "bevy_ui", "bevy_text", "bevy_color", "bevy_window", "bevy_log"] }
