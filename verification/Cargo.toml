[package]
name = "futex_parker"
version = "0.1.0"
edition = "2021"
publish = false

[dependencies]
hermit-abi = "*"
