[package]
name = "wolf3d"
version = "0.1.0"
edition = "2021"
publish = false

[dependencies]
serde_json = "*"
