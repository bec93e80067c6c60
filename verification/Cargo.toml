[package]
name = "gpu_snippets"
version = "0.1.0"
edition = "2021"
publish = false

[dependencies]
anyhow = "=1.0.104"
glutin = "=0.29.1"
grr = "=0.8.0"
image = "=0.24.9"
