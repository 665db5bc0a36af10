[package]
name = "fui"
version = "0.1.0"
edition = "2021"
publish = false

[dependencies]
rand = "0.8"
typemap = "0.3"
shared_library = "0.1"
