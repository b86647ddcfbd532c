[package]
name = "mapping_harness"
version = "0.1.0"
edition = "2021"
publish = false

[dependencies]
indexmap = "*"
ethabi = "*"
colored = "*"
