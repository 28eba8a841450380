[package]
name = "ddm_core"
version = "0.1.0"
edition = "2021"
publish = false

[dependencies]
arrayfire = "*"
gnuplot = "*"
num-complex = "*"
opencv = "*"
rayon = "*"
