[package]
name = "quadloop"
version = "0.1.0"
edition = "2021"
publish = false

[dependencies]
glium = "*"
nalgebra = "*"
