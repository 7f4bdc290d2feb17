[package]
name = "soliloquy_js"
version = "0.1.0"
edition = "2021"
publish = false

[dependencies]
url = "=2.5.8"
rustc-hash = "=2.1.3"
indexmap = "=2.14.2"
log = "=0.4.35"
crossbeam-channel = "=0.5.17"
v8 = "*"
