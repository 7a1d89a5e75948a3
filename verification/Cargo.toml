[package]
name = "fbx_scene"
version = "0.1.0"
edition = "2021"
publish = false

[dependencies]
bevy_mikktspace = "*"
fbxcel-dom = "=0.0.10"
glam = "=0.34.1"
mint = "=0.5.9"
rgb = "=0.8.53"
