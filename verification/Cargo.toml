[package]
name = "bevy_map_handle"
version = "0.1.0"
edition = "2021"
publish = false

[dependencies]
bevy = { version = "0.11", default-features = false, features = ["bevy_asset"] }
