[package]
name = "rose_engine"
version = "0.1.0"
edition = "2021"
publish = false

[dependencies]
svg = "*"
stl_io = "*"
