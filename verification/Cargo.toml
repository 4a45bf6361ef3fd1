[package]
name = "thumbnailer"
version = "0.1.0"
edition = "2021"
publish = false

[dependencies]
file-format = "*"
image = "0.24"
lazy_static = "1"
rayon = "1"
tempfile = "3"
webp = "0.2"
