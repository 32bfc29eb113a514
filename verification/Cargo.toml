[package]
name = "fvm"
version = "0.1.0"
edition = "2021"
publish = false

[dependencies]
ethash = "=0.4.0"
ethereum-bigint = "=0.2.9"
ethereum-types = "=0.8.0"
fixed-hash = { version = "=0.5.2", features = ["rand"] }
rkv = "=0.9.7"
rlp = "=0.4.6"
tempdir = "=0.3.7"
