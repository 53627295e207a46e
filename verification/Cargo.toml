[package]
name = "pyrion"
version = "0.1.0"
edition = "2021"
publish = false

[dependencies]
fixed = "1"
heapless = "0.8"
micromath = "2"
error_set = "*"
