[package]
name = "rliv"
version = "0.1.0"
edition = "2021"
publish = false

[dependencies]
glium = "0.29"
image = { version = "0.23", default-features = false, features = ["png", "jpeg", "gif", "bmp", "ico", "tiff", "webp"] }
imgui = "0.7"
imgui-glium-renderer = "0.7"
