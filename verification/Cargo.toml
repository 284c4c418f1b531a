[package]
name = "tilecon"
version = "0.1.0"
edition = "2021"
publish = false

[dependencies]
glium = "*"
image = "*"
nalgebra = "*"
rustc-serialize = "*"
time = "*"
