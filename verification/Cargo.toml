[package]
name = "s4installer"
version = "0.1.0"
edition = "2021"
publish = false

[dependencies]
clap = { version = "3", features = ["derive"] }
dirs = "*"
mslnk = "*"
path-absolutize = "*"
symlink = "*"
which = "*"
