[package]
name = "mach_memory"
version = "0.1.0"
edition = "2021"
publish = false

[dependencies]
mach = "0.3"
