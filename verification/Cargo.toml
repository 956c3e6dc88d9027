[package]
name = "bevy_tutorial"
version = "0.1.0"
edition = "2021"
publish = false

[dependencies]
bevy = { version = "=0.18.1", default-features = false, features = ["std", "multi_threaded", "bevy_core_pipeline", "png"] }
