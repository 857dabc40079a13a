[package]
name = "flocking"
version = "0.1.0"
edition = "2021"
publish = false

[dependencies]
rand = "0.8"
rayon = "1"
nalgebra = "*"
glium = "*"
winit = "0.30"
