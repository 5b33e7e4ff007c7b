[package]
name = "gpu_singleshot"
version = "0.1.0"
edition = "2021"
publish = false

[dependencies]
image = "*"
vulkano = "0.11"
vulkano-shader-derive = "0.11"
