[package]
name = "tiny_tank"
version = "0.1.0"
edition = "2021"
publish = false

[dependencies]
bevy = { version = "=0.6.1", default-features = false, features = ["render"] }
bevy_prototype_lyon = "=0.4.0"
pin-project = "=1.0.12"
