[package]
name = "scene_presenter"
version = "0.1.0"
edition = "2021"
publish = false

[dependencies]
glam = "0.24"
tobj = "4"
vulkano = "0.34"
vulkano-shaders = "0.34"
winit = { version = "0.28", default-features = false, features = ["x11"] }
