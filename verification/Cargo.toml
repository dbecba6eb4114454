[package]
name = "rotating_cube"
version = "0.1.0"
edition = "2021"
publish = false

[dependencies]
glium = "0.32"
nalgebra = "*"
num-format = "0.4"
termsize = "0.1"
