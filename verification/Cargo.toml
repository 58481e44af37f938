[package]
name = "dmd_bridge"
version = "0.1.0"
edition = "2021"
publish = false

[dependencies]
dmd_core = "=0.2.1"
lazy_static = "=1.5.1"
libc = "=0.2.191"
