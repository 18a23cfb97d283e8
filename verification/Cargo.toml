[package]
name = "amethyst_imgui"
version = "0.1.0"
edition = "2021"
publish = false

[dependencies]
amethyst = { version = "0.12", default-features = false }
imgui = "0.1"
failure = "0.1"
