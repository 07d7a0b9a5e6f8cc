[package]
name = "include_zstd"
version = "0.1.0"
edition = "2021"
publish = false

[dependencies]
zstd = "0.13"
proc-macro2 = "1"
quote = "1"
syn = "2"
proc-macro-crate = "3"
