[package]
name = "steed"
version = "0.1.0"
edition = "2021"
publish = false

[dependencies]
sc = "0.2"
