[package]
name = "gravity_sim"
version = "0.1.0"
edition = "2021"
publish = false

[dependencies]
anyhow = "1"
bytemuck = "1"
clap = { version = "4", features = ["derive"] }
egui = "0.27"
egui-wgpu = "0.27"
env_logger = "0.11"
glam = "0.27"
log = "0.4"
rand = "0.8"
tokio = { version = "1", features = ["rt-multi-thread"] }
wgpu = "0.19"
winit = "0.30"
