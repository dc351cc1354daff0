[package]
name = "icebug"
version = "0.1.0"
edition = "2021"
publish = false

[dependencies]
arrow-array = "*"
cxx = "*"
