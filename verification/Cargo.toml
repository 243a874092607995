[package]
name = "simple_vbap"
version = "0.1.0"
edition = "2021"
publish = false

[dependencies]
hound = "3"
libc = "0.2"
time = "0.1"
