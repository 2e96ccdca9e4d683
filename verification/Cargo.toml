[package]
name = "badge_registry"
version = "0.1.0"
edition = "2021"
publish = false

[dependencies]
chrono = "0.4"
hex = "0.4"
ring = "0.17"
