[package]
name = "benchshm"
version = "0.1.0"
edition = "2021"
publish = false

[dependencies]
crossbeam-utils = "*"
lexopt = "*"
libc = "*"
rand = "*"
shared_memory = "*"
