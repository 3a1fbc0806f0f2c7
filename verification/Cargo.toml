[package]
name = "labitbu"
version = "0.1.0"
edition = "2021"
publish = false

[dependencies]
bitcoin = "=0.32.102"
image = { version = "=0.25.10", default-features = false, features = ["png", "webp"] }
image-webp = "=0.2.4"
rand = { version = "=0.8.8", features = ["small_rng"] }

[dev-dependencies]
hex = "0.4"
