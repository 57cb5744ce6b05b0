[package]
name = "panel_puzzle"
version = "0.1.0"
edition = "2021"
publish = false

[dependencies]
rand = "0.8.5"
amethyst = { version = "0.15.3", default-features = false, features = ["renderer", "empty"] }
