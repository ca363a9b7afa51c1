[package]
name = "elrond_wasm"
version = "0.1.0"
edition = "2021"
publish = false

[dependencies]
elrond-codec = "=0.5.3"
