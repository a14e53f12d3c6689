[package]
name = "fractals"
version = "0.1.0"
edition = "2021"
publish = false

[dependencies]
image = "=0.24.9"
rayon = "=1.12.0"
vulkano = "0.28"
