[package]
name = "snake"
version = "0.1.0"
edition = "2021"
publish = false

[dependencies]
piston_window = "0.132"
