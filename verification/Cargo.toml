[package]
name = "gni"
version = "0.1.0"
edition = "2021"
publish = false

[dependencies]
glow = "0.11"
glutin = "0.28"
