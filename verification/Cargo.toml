[package]
name = "sealed_generic"
version = "0.1.0"
edition = "2021"
publish = false

[dependencies]
syn = "2"
convert_case = "*"
