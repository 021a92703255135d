[package]
name = "brotli_boundary"
version = "1.0.0"
edition = "2021"
publish = false

[dependencies]
brotli = { version = "=9.0.0", features = ["portable-float"] }
libc = "=0.2.191"
