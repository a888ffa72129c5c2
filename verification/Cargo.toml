[package]
name = "rusty_code"
version = "0.1.0"
edition = "2021"
publish = false

[dependencies]
cxx = "*"
lazy_static = "*"
mut_static = "*"
