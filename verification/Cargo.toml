[package]
name = "libstrophe"
version = "0.20.3"
edition = "2021"
publish = false

[dependencies]
log = "0.4"
once_cell = "1"
scopeguard = "1"
