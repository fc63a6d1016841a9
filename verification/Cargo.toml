[package]
name = "circle_clicker"
version = "0.1.0"
edition = "2021"
publish = false

[dependencies]
rand = "=0.8.8"
bevy = { version = "=0.6.1", default-features = false, features = ["render", "bevy_winit", "x11", "png"] }
tracing = "=0.1.29"
tracing-attributes = "=0.1.18"
