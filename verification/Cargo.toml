[package]
name = "planetarium"
version = "0.1.0"
edition = "2021"
publish = false

[dependencies]
bytemuck = "*"
convexhull3d = "*"
glam = "*"
nalgebra = "*"
serde = { version = "*", features = ["derive"] }
serde_json = "*"
