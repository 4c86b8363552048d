[package]
name = "trve_font"
version = "0.1.0"
edition = "2021"
publish = false

[dependencies]
bevy_app = "=0.13.2"
bevy_asset = "=0.13.2"
bevy_ecs = "=0.13.2"
