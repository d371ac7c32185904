[package]
name = "roof_hopper"
version = "0.1.0"
edition = "2021"
publish = false

[dependencies]
amethyst = { version = "0.15", default-features = false, features = ["vulkan"] }
cgmath = "0.17"
lazy_static = "1"
log = "0.4"
serde = { version = "1", features = ["derive"] }
serde_derive = "1"
