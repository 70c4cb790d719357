[package]
name = "ss14_noise"
version = "0.1.0"
edition = "2021"
publish = false

[dependencies]
noise = { version = "=0.6.0", default-features = false }
