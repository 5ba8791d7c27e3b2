[package]
name = "minwasm"
version = "0.1.0"
edition = "2021"
publish = false

[dev-dependencies]
wat = "*"
