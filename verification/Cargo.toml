[package]
name = "id3_decoder"
version = "0.1.0"
edition = "2021"
publish = false

[dependencies]
byteorder = "1"
log = "0.4"
pretty_env_logger = "*"
walkdir = "2"
