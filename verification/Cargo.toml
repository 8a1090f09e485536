[package]
name = "ectoplasma"
version = "0.1.0"
edition = "2021"
publish = false

[dependencies]
odra-core = "=2.9.1"
