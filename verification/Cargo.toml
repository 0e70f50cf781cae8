[package]
name = "vulkan_engine"
version = "0.1.0"
edition = "2021"
publish = false

[dependencies]
ash = "0.38"
ash-window = "0.13"
glam = "0.29"
gpu-allocator = { version = "0.27", default-features = false, features = ["vulkan"] }
log = "0.4"
presser = "0.3"
simple_logger = "5"
winit = "0.30"
