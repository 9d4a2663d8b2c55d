[package]
name = "nvg_gl"
version = "0.1.0"
edition = "2021"
publish = false

[dependencies]
slab = "=0.4.12"
gl = "=0.14.0"
anyhow = "=1.0.104"
const_soft_float = "=0.1.4"
