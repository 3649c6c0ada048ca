[package]
name = "charmap"
version = "0.1.0"
edition = "2021"
publish = false

[dependencies]
hashbrown = "=0.9.1"
ahash = "0.4"
phf = "=0.14.0"

[dev-dependencies]
phf_generator = "=0.14.0"
phf_shared = "=0.14.0"
