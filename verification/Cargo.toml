[package]
name = "cheatnet"
version = "0.1.0"
edition = "2021"
publish = false

[dependencies]
cairo-felt = "=0.8.7"
cairo-lang-casm = "*"
cairo-lang-runner = "*"
cairo-vm = "*"
