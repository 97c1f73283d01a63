[package]
name = "image"
version = "0.1.0"
edition = "2021"
publish = false

[dependencies]
zune-core = "0.2"
zune-jpeg = "0.3"

[dev-dependencies]
jpeg-encoder = "0.6"
