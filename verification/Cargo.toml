[package]
name = "nvim_libuv"
version = "0.1.0"
edition = "2021"
publish = false

[dependencies]
nvim-types = "*"
libuv-sys2 = "*"
