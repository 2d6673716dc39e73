[package]
name = "te_image"
version = "0.1.0"
edition = "2021"
publish = false

[dependencies]
scroll = "0.12"
