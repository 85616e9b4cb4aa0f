[package]
name = "world"
version = "0.0.0"
edition = "2021"
publish = false

[dependencies]
multiversx-sc = "0.54"
