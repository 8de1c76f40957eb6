[package]
name = "solar"
version = "0.1.0"
edition = "2021"
publish = false

[dependencies]
glium = "0.32"
image = "0.24"
nalgebra-glm = "0.18"
obj-rs = { version = "0.7", features = ["glium"] }
