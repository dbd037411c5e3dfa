[package]
name = "xnixperms"
version = "0.1.0"
edition = "2021"

[dependencies]
ascii = "1"
