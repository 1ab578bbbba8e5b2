[package]
name = "sass_core"
version = "0.1.0"
edition = "2021"
publish = false

[dependencies]
codemap = "0.1.3"
num-traits = "0.2"
