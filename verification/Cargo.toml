[package]
name = "zunesha"
version = "0.1.0"
edition = "2021"
publish = false

[dependencies]
ash = "0.38"
bytemuck = "1"
thiserror = "2"
