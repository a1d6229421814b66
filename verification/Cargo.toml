[package]
name = "otter"
version = "0.1.0"
edition = "2021"
publish = false

[dependencies]
enif-ffi = { version = "=0.2.0", features = ["nif_2_17"] }
num-bigint = "=0.5.1"
libc = "=0.2.191"
