[package]
name = "piet_backends"
version = "0.1.0"
edition = "2021"
publish = false

[dependencies]
piet = "=0.0.13"
piet-cairo = "=0.0.13"
cairo-rs = "=0.8.1"
png = "=0.18.1"
core-graphics = "=0.25.0"
