[package]
name = "transhader"
version = "0.1.0"
edition = "2021"
publish = false

[dependencies]
naga = { version = "0.19", features = ["glsl-in", "spv-in", "wgsl-in", "hlsl-out", "glsl-out", "msl-out", "spv-out", "wgsl-out"] }
ron = "0.8"
serde = { version = "1", features = ["derive"] }
