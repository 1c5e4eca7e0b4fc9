[package]
name = "spe"
version = "0.1.0"
edition = "2021"
publish = false

[dependencies]
vulkano = "=0.34.2"
winit = { version = "=0.29.15", default-features = false, features = ["rwh_05", "x11"] }
glam = "=0.27.0"
tempfile = "=3.27.0"
tinyfiledialogs = "=3.9.1"
self_update = { version = "0.39", default-features = false, features = ["archive-tar", "compression-flate2"] }
reqwest = { version = "0.11", default-features = false }
