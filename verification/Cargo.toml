[package]
name = "planet_scene"
version = "0.1.0"
edition = "2021"
publish = false

[dependencies]
noise = { version = "0.9", default-features = false }
ron = "0.8"
serde = { version = "1", features = ["derive"] }
thiserror = "1"
