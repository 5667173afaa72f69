[package]
name = "minifetch"
version = "0.1.0"
edition = "2021"
publish = false

[dependencies]
colored = "=3.1.1"
sys-info = "=0.9.1"
whoami = "=1.6.1"
