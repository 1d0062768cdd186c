[package]
name = "wgpugd"
version = "0.1.0"
edition = "2021"
publish = false

[dependencies]
bytemuck = { version = "1", features = ["derive"] }
extendr-api = { version = "*", features = ["graphics"] }
fontdb = "0.9"
glam = "0.20"
lyon = "0.17"
png = "0.17"
pollster = "0.2"
ttf-parser = "0.15"
wgpu = "0.12"

[dev-dependencies]
regex = "1"
