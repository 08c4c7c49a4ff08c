[package]
name = "game_of_life"
version = "0.1.0"
edition = "2021"
publish = false

[dependencies]
rand = "0.9"
anyhow = "1"
bytemuck = { version = "1", features = ["derive"] }
eframe = { version = "0.31", default-features = false, features = ["default_fonts", "glow", "x11"] }
env_logger = { version = "0.11", default-features = false }
log = "0.4"
pollster = "0.4"
wgpu = "25"
winit = "0.30"
