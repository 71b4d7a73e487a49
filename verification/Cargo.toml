[package]
name = "ironaccelerator"
version = "0.1.0"
edition = "2021"
publish = false

[dependencies]
libloading = "0.8"
once_cell = "1"
parking_lot = "0.12"
