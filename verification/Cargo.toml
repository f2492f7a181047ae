[package]
name = "fancurve"
version = "0.1.0"
edition = "2021"
publish = false

[dependencies]
arrayvec = "*"
cursive = "*"
cursive_core = "*"
nvml-wrapper = "*"
sudo = "*"
