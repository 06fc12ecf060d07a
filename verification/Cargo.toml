[package]
name = "cava"
version = "0.1.0"
edition = "2021"
publish = false

[dependencies]
anyhow = "1"
configparser = "3"
notify = "*"
pollster = "*"
vello = "*"
winit = "0.30"
