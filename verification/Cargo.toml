[package]
name = "wanderball"
version = "0.1.0"
edition = "2021"
publish = false

[dependencies]
rand = "0.7"
amethyst = { version = "0.15", default-features = false, features = ["audio", "renderer"] }
serde = { version = "1", features = ["derive"] }
serde_json = "1"
log = "0.4"
