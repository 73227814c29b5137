[package]
name = "riscv_mutex"
version = "0.1.0"
edition = "2021"
publish = false

[dependencies]
mutex-trait = "=0.2.0"
register = "=0.5.1"
