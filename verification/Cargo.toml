[package]
name = "crc32_digest"
version = "0.1.0"
edition = "2021"
publish = false

[dependencies]
crc32fast = "1"
digest = "0.10"
generic-array = "0.14"
