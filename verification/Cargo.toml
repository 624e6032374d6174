[package]
name = "gxci"
version = "0.1.0"
edition = "2021"
publish = false

[dependencies]
imageproc = "*"
