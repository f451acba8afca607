[package]
name = "change_set"
version = "0.1.0"
edition = "2021"
publish = false

[dependencies]
frame-support = "*"
frame-system = "*"
parity-scale-codec = "*"
sp-arithmetic = "*"
sp-core = "*"
sp-runtime = "*"
sp-std = "*"
