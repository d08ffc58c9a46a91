[package]
name = "domain_coloring"
version = "0.1.0"
edition = "2021"
publish = false

[dependencies]
num-complex = "*"
bytemuck = "*"
image = { version = "*", default-features = false, features = ["png"] }
