[package]
name = "img_maniac"
version = "0.1.0"
edition = "2021"
publish = false

[dependencies]
imagesize = "*"
