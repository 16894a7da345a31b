[package]
name = "rustui"
version = "0.1.0"
edition = "2021"
publish = false

[dependencies]
ab_glyph = "0.2"
env_logger = "0.10"
log = "0.4"
num-format = "0.4"
pixels = "=0.13.0"
winit = "=0.28.7"
