[package]
name = "circt"
version = "0.1.0"
edition = "2021"
publish = false

[dependencies]
bindgen = "*"
itertools = "0.10"
once_cell = "1"
