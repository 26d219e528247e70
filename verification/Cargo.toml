[package]
name = "avif_enc"
version = "0.1.0"
edition = "2021"
publish = false

[dependencies]
bytemuck = "=1.25.2"
ravif = { version = "=0.11.20", default-features = false, features = ["threading"] }
rgb = "=0.8.53"
