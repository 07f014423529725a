[package]
name = "sprite_walk"
version = "0.1.0"
edition = "2021"
publish = false

[dependencies]
bevy = { version = "=0.16.1", default-features = false, features = ["std", "bevy_asset", "bevy_sprite", "bevy_window", "bevy_winit", "png", "x11"] }
