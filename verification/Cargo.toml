[package]
name = "aerocore"
version = "0.1.0"
edition = "2021"
publish = false

[dependencies]
bumpalo = "=3.20.3"
num-traits = "=0.2.19"
