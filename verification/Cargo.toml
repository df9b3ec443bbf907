[package]
name = "ahrs"
version = "0.1.0"
edition = "2021"
publish = false

[dependencies]
simba = "*"
num-traits = "*"

[dev-dependencies]
nalgebra = "*"
approx = "*"
