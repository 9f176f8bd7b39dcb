[package]
name = "alga"
version = "0.1.0"
edition = "2021"
publish = false

[dependencies]
num = "0.4"
num-complex = "0.4"
approx = "0.5"
