[package]
name = "asking"
version = "0.1.0"
edition = "2021"
publish = false

[dependencies]
chrono = "0.4"
async-std = "1"
thiserror = "1"
