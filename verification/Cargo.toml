[package]
name = "voxgen"
version = "0.1.0"
edition = "2021"
publish = false

[dependencies]
rayon = "*"
vek = "*"
log = "*"
env_logger = "*"
