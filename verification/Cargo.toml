[package]
name = "pixely"
version = "0.1.0"
edition = "2021"
publish = false

[dependencies]
bytemuck = "1"
raw-window-handle = "0.5"
wgpu = "0.16"
