[package]
name = "waitla"
version = "0.1.0"
edition = "2021"
publish = false

[dependencies]
clap = "3"
num_cpus = "*"
systemstat = "*"
