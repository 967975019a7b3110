[package]
name = "minidump_reader"
version = "0.1.0"
edition = "2021"
publish = false

[dependencies]
memmap2 = "*"
minidump = "*"
