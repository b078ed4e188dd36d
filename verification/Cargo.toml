[package]
name = "robot"
version = "0.1.0"
edition = "2021"
publish = false

[dependencies]
byteorder = "=1.5.0"
cast = "=0.2.7"
nb = "=0.1.3"
