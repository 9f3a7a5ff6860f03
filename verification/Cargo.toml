[package]
name = "clang"
version = "0.1.0"
edition = "2021"
publish = false

[dependencies]
c_vec = "*"
ctypes = "*"
