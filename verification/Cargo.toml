[package]
name = "image_resizer"
version = "0.1.0"
edition = "2021"
publish = false

[dependencies]
clap = "4"
image = "0.25"
