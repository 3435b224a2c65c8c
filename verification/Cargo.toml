[package]
name = "platinum"
version = "0.1.0"
edition = "2021"
publish = false

[dependencies]
ahash = "0.8"
femtovg = { version = "*", default-features = false }
glutin = "0.32"
glutin-winit = "0.5"
image = { version = "*", default-features = false }
serde = { version = "1", features = ["derive"] }
winit = "0.30"
