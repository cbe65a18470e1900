[package]
name = "custom3d"
version = "0.1.0"
edition = "2021"
publish = false

[dependencies]
image = { version = "0.24", default-features = false, features = ["png"] }
bytemuck = { version = "1", features = ["derive"] }
cgmath = "0.18"
