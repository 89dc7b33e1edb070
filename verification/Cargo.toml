[package]
name = "jack_gain"
version = "0.1.0"
edition = "2021"
publish = false

[dependencies]
jack = "*"
itertools = "*"
