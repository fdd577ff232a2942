[package]
name = "pyrefly_types"
version = "0.1.0"
edition = "2021"
publish = false

[dependencies]
dupe = "0.9"
starlark_map = "=0.14.2"
vec1 = "=1.12.1"
