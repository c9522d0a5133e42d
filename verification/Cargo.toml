[package]
name = "sway_traits"
version = "0.1.0"
edition = "2021"
publish = false

[dependencies]
sway-error = "0.47"
sway-types = "0.47"
