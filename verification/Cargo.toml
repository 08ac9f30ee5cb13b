[package]
name = "vrt"
version = "0.1.0"
edition = "2021"
publish = false

[dependencies]
erupt = "0.23"
winit = "0.27"
