[package]
name = "bosminer"
version = "0.1.0"
edition = "2021"
publish = false

[dependencies]
byteorder = "=1.5.0"
embedded-hal = { version = "=0.2.7", features = ["unproven"] }
libc = "=0.2.191"
nix = "=0.13.1"
uint = "=0.4.1"
