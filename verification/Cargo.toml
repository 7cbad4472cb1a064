[package]
name = "mmap_array"
version = "0.1.0"
edition = "2021"
publish = false

[dependencies]
mmap-vec = "*"
rand = "0.8"
