[package]
name = "charybdis"
version = "0.1.0"
edition = "2021"
publish = false

[dependencies]
colored = "2"
scylla = "0.12"
proc-macro2 = "1"
quote = "1"
syn = "2"
