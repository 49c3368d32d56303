[package]
name = "diene"
version = "0.1.0"
edition = "2021"
publish = false

[dependencies]
ash = "0.38"
ash-window = "0.13"
raw-window-handle = "0.6"
winit = "0.30"
vk-mem = "*"
shader-slang = "*"
thiserror = "2"
anyhow = "1"
error-stack = "0.5"
tracing = "0.1"
tracing-appender = "0.2"
tracing-subscriber = { version = "0.3", features = ["env-filter"] }
nalgebra-glm = "*"
image = { version = "0.25", default-features = false, features = ["jpeg", "png"] }
