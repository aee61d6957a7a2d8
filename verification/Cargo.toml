[package]
name = "candle_metal_kernels"
version = "0.1.0"
edition = "2021"
publish = false

[dependencies]
metal = "0.27"
thiserror = "1"
