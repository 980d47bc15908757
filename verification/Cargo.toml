[package]
name = "fastcgi_transport"
version = "0.1.0"
edition = "2021"
publish = false

[dependencies]
nix = "0.20"
