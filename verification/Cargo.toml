[package]
name = "vmaf_models"
version = "0.1.0"
edition = "2021"
publish = false

[dependencies]
tempfile = "3"
lazy_static = "1"
