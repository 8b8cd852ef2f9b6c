[package]
name = "mote"
version = "0.1.0"
edition = "2021"
publish = false

[dependencies]
half = "2"
thiserror = "2"
vulkano = "0.35"
cubecl = { version = "0.11", default-features = false, features = ["hip"] }
cubecl-runtime = { version = "0.11", default-features = false }
cubecl-hip-sys = "7"
cubek-matmul = { version = "0.3", default-features = false }
cubek-std = { version = "0.3", default-features = false }
