[package]
name = "c_struct_size"
version = "0.1.0"
edition = "2021"
publish = false

[dependencies]
rustler = "=0.34.0"
