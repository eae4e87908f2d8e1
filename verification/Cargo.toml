[package]
name = "bevy_easy_gif"
version = "0.1.0"
edition = "2021"
publish = false

[dependencies]
bevy = { version = "0.17", default-features = false, features = ["std", "bevy_asset", "bevy_sprite", "bevy_ui", "bevy_pbr", "bevy_render"] }
gif = "0.13"
thiserror = "2"
