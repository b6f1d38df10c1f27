[package]
name = "lossless_optimiser"
version = "0.1.0"
edition = "2021"
publish = false

[dependencies]
anyhow = "1"
dunce = "1"
log = "0.4"
simplelog = "*"
structopt = "0.3"
tree_magic_mini = "*"
