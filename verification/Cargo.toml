[package]
name = "renderer"
version = "0.1.0"
edition = "2021"
publish = false

[dependencies]
cgmath = "=0.18.0"
collada = "=0.11.0"
time = "=0.1.45"
vulkano = "0.21"
vulkano-win = "0.21"
winit = "0.24"
