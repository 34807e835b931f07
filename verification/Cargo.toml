[package]
name = "fragment"
version = "0.1.0"
edition = "2021"
publish = false

[dependencies]
grep = "*"
crossbeam-channel = "*"
walkdir = "*"
notify = "4"
open = "*"
argh = "*"
chrono = "*"
