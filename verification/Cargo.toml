[package]
name = "amp"
version = "0.1.0"
edition = "2021"
publish = false

[dependencies]
scribe = "*"
unicode-segmentation = "*"
