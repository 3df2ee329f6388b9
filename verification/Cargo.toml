[package]
name = "eta3_spline"
version = "0.1.0"
edition = "2021"
publish = false

[dependencies]
csv = "*"
atomicwrites = "*"
