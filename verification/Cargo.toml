[package]
name = "enki"
version = "0.1.0"
edition = "2021"
publish = false

[dependencies]
anyhow = "1"
ash = "0.38"
ash-window = "0.13"
bytemuck = { version = "1", features = ["derive"] }
proc-macro2 = "1"
quote = "1"
raw-window-handle = "0.6"
serde = { version = "1", features = ["derive"] }
serde_json = "1"
syn = { version = "2", features = ["full"] }
vk-mem = "0.4"
winit = "0.30"
