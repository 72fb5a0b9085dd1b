[package]
name = "raytracer"
version = "0.1.0"
edition = "2021"
publish = false

[dependencies]
cgmath = "0.18"
pixels = "0.9"
rand = "0.8"
rayon = "1"
winit = "0.26"
winit_input_helper = "0.11"
