[package]
name = "caudio"
version = "0.1.0"
edition = "2021"
publish = false

[dependencies]
bitflags = "1.3"
thiserror = "1"
coreaudio-sys = "0.2"
core-foundation-sys = "0.8"
