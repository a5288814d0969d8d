[package]
name = "dual_approx"
version = "0.1.0"
edition = "2021"
publish = false

[dependencies]
cgmath = "*"
approx = "0.4"

[dev-dependencies]
num-traits = "*"
