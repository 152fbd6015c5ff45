[package]
name = "glsl_embed"
version = "0.1.0"
edition = "2021"
publish = false

[dependencies]
glsl-to-spirv = "0.1"
syn = "0.11"
quote = "0.3"
