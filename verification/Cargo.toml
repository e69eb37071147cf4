[package]
name = "bootloader"
version = "0.1.0"
edition = "2021"
publish = false

[dependencies]
uefi = { version = "0.28", features = ["alloc"] }
build-info = "*"
