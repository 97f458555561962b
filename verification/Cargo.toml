[package]
name = "libbladerf_native_rs"
version = "0.1.0"
edition = "2021"
publish = false

[dependencies]
anyhow = "1"
nusb = "0.1"
