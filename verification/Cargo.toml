[package]
name = "glam_traits"
version = "0.1.0"
edition = "2021"
publish = false

[dependencies]
anyhow = "1"
glam = "0.30"
num-traits = "0.2"
tera = { version = "1", default-features = false }
