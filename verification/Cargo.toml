[package]
name = "hala_renderer"
version = "0.1.0"
edition = "2021"
publish = false

[dependencies]
glam = { version = "*", features = ["bytemuck"] }
bytemuck = "*"
meshopt = "*"
image = "*"
log = "*"
serde = { version = "*", features = ["derive"] }
