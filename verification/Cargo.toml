[package]
name = "rawler"
version = "0.1.0"
edition = "2021"
publish = false

[dependencies]
byteorder = "=1.5.0"
itertools = "=0.15.0"
rayon = "=1.12.0"
toml = "0.8"
