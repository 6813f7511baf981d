[package]
name = "voxelify"
version = "0.1.0"
edition = "2021"
publish = false

[dependencies]
clap = { version = "4", features = ["derive"] }
gltf = "1"
image = "0.24"
