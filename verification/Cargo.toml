[package]
name = "mp3_backend"
version = "0.1.0"
edition = "2021"
publish = false

[dependencies]
id3 = "*"
