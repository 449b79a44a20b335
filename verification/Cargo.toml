[package]
name = "jp2k"
version = "0.1.0"
edition = "2021"
publish = false

[dependencies]
openjpeg-sys = "*"
