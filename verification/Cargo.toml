[package]
name = "bevy_tween"
version = "0.2.0"
edition = "2021"
publish = false

[dependencies]
bevy = { version = "0.13", default-features = false }
