[package]
name = "render_bootstrap"
version = "0.1.0"
edition = "2021"
publish = false

[dependencies]
ash = "0.37"
winit = "0.27"
