[package]
name = "cpu"
version = "0.1.0"
edition = "2021"
publish = false

[dependencies]
find_folder = "*"
piston_window = "*"
