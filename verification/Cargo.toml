[package]
name = "helium"
version = "0.1.0"
edition = "2021"
publish = false

[dependencies]
bitfield = "=0.20.0"
circular-buffer = "=0.1.9"
