[package]
name = "pbjson_no_std"
version = "0.1.0"
edition = "2021"
publish = false

[dependencies]
pbjson = "*"
pbjson-types = "*"
