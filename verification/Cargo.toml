[package]
name = "koto_values"
version = "0.1.0"
edition = "2021"
publish = false

[dependencies]
indexmap = "*"
koto_parser = "=0.11.0"
rustc-hash = "*"
