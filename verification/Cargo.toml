[package]
name = "satellite"
version = "0.1.0"
edition = "2021"

[dependencies]
kiss3d = "=0.35.0"
rand = "=0.8.8"
rustc_apfloat = "0.2"
softfloat = "=1.0.0"
