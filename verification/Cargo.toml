[package]
name = "batch_kernel"
version = "0.1.0"
edition = "2021"
publish = false

[dependencies]
riscv = "*"
lazy_static = "1.4.0"
