[package]
name = "linuos"
version = "0.1.0"
edition = "2021"
publish = false

[dependencies]
dhcproto = "*"
pnet = "*"
rand = "0.8"
libc = "0.2"
nix = "0.26"
log = "0.4"
env_logger = "*"
