[package]
name = "frameloop"
version = "0.1.0"
edition = "2021"
publish = false

[dependencies]
cgmath = "=0.18.0"
time = "=0.1.45"
vulkano = "=0.24.0"
vulkano-win = "=0.24.0"
vulkano_text = "=0.15.0"
vulkano-shader-derive = "=0.11.0"
winit = "0.25"
