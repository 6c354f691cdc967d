[package]
name = "shapr_glium"
version = "0.1.0"
edition = "2021"
publish = false

[dependencies]
glium = "=0.30.2"
