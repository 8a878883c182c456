[package]
name = "debug_serialization"
version = "0.1.0"
edition = "2021"
publish = false

[dependencies]
hex = "0.4"
serde = "1.0"
ethereum-types = "*"
