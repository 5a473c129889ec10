[package]
name = "pathtrace"
version = "0.1.0"
edition = "2021"
publish = false

[dependencies]
exr = "1"
glam = "*"
rand = { version = "0.8", features = ["small_rng"] }
thiserror = "1"
