[package]
name = "pencilmake"
version = "0.1.0"
edition = "2021"
publish = false

[dependencies]
ash = "0.37"
ash-window = "0.12"
raw-window-handle = "0.5"
winit = "0.28"
anyhow = "1"
tobj = "4"
ahash = "0.8"
vk-shader-macros = "0.2"
