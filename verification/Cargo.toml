[package]
name = "ggez"
version = "0.1.0"
edition = "2021"
publish = false

[dependencies]
glam = "0.12"
image = { version = "0.23", default-features = false, features = ["png"] }
nalgebra = { version = "0.32", default-features = false, features = ["std"] }
toml = "0.1"
rustc-serialize = "0.3"
gfx = "0.18"
gfx_device_gl = "0.16"
gfx_window_sdl = "*"
sdl2 = "*"
wgpu = { version = "*", default-features = false }
