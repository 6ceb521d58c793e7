[package]
name = "g3d"
version = "0.1.0"
edition = "2021"
publish = false

[dependencies]
egui = "*"
image = { version = "*", default-features = false, features = ["png", "jpeg", "bmp", "tga"] }
