[package]
name = "lc3_vm"
version = "0.1.0"
edition = "2021"

[dependencies]
anyhow = "1"
log = "0.4"
nix = "0.26"
