[package]
name = "gridgeom"
version = "0.1.0"
edition = "2021"
publish = false

[dependencies]
interpolate = "=0.1.2"
num-traits = "=0.2.19"
