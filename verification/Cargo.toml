[package]
name = "libxdc"
version = "0.1.0"
edition = "2021"
publish = false

[dependencies]
goblin = "*"
clap = "*"
parse_int = "*"
libxdc-sys = "*"
