[package]
name = "temu"
version = "0.1.0"
edition = "2021"
publish = false

[dependencies]
ahash = "0.8"
bytemuck = { version = "1", features = ["derive"] }
crossbeam-channel = "0.5"
env_logger = "0.11"
etagere = "0.2"
futures-executor = "0.3"
log = "0.4"
portable-pty = "0.9"
raw-window-handle = "0.5"
swash = "0.2"
termwiz = "0.23"
wgpu = "0.15"
winit = "0.28"
