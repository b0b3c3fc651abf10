[package]
name = "image_recovery"
version = "0.1.0"
edition = "2021"
publish = false

[dependencies]
const_soft_float = "=0.1.4"
image = "=0.25.10"

[dev-dependencies]
rand = "=0.9.5"
