[package]
name = "easyfuse"
version = "0.1.0"
edition = "2021"
publish = false

[dependencies]
fuse = "*"
libc = "*"
time = "0.1"
