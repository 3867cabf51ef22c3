[package]
name = "u2fhid"
version = "0.1.0"
edition = "2021"
publish = false

[dependencies]
core-foundation-sys = "=0.8.7"
libc = "0.2"
mach = "0.0.6"
