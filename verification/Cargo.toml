[package]
name = "mentacore"
version = "0.1.0"
edition = "2021"
publish = false

[dependencies]
elf = { version = "=0.7.4", default-features = false }
embedded-graphics = "=0.8.2"
uefi = { version = "=0.41.0", features = ["alloc"] }
