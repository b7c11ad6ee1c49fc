[package]
name = "lunar"
version = "0.1.0"
edition = "2021"
publish = false

[dependencies]
read_input = "0.8"
