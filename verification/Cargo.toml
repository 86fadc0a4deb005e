[package]
name = "protobook"
version = "0.1.0"
edition = "2021"
publish = false

[dependencies]
language-tags = "*"
uuid = "*"
fb2 = "*"
