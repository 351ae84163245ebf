[package]
name = "viet_telex"
version = "0.1.0"
edition = "2021"
publish = false

[dependencies]
xflags = "0.3"
