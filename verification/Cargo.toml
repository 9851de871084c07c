[package]
name = "qlearn"
version = "0.1.0"
edition = "2021"
publish = false

[dependencies]
rand = "=0.8.8"
fixed = "=1.31.0"
cordic = "=0.1.5"
