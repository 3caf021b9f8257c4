[package]
name = "inspector"
version = "0.1.0"
edition = "2021"
publish = false

[dependencies]
rapier3d = { version = "=0.36.0", features = ["debug-render"] }
egui = "=0.36.2"
nalgebra = "=0.35.0"
