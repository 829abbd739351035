[package]
name = "nuance"
version = "0.4.0"
edition = "2021"
publish = false

[dependencies]
glsl-lang = "=0.8.1"
lang-util = "=0.8.1"
anyhow = "=1.0.104"
log = "=0.4.34"
env_logger = "=0.11.11"
futures-executor = "=0.3.34"
image = { version = "=0.25.10", default-features = false, features = ["png", "bmp", "gif", "jpeg"] }
notify = "=8.2.0"
shaderc = "=0.10.1"
wgpu = { version = "=30.0.1", features = ["spirv"] }
winit = "=0.30.13"

[dev-dependencies]
crevice = "=0.20.1"
mint = "=0.5.9"
