[package]
name = "stream_inflate"
version = "0.1.0"
edition = "2021"
publish = false

[dependencies]
zlib-rs = "*"
napi = "2"
napi-derive = "2"
