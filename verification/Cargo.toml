[package]
name = "hello_triangle"
version = "0.1.0"
edition = "2021"
publish = false

[dependencies]
vulkano = "0.22"
vulkano-win = "0.22"
winit = "0.24"
