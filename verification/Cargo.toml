[package]
name = "gif_animation"
version = "0.1.0"
edition = "2021"
publish = false

[dependencies]
bevy = { version = "=0.7.0", default-features = false, features = ["bevy_render"] }
image = { version = "=0.24.9", default-features = false }
tracing = "=0.1.37"
tracing-attributes = "=0.1.23"
