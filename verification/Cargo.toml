[package]
name = "machine-rustsbi"
version = "0.1.0"
edition = "2021"
publish = false

[dependencies]
spin = "0.5"
lazy_static = { version = "1.4", features = ["spin_no_std"] }
embedded-hal = "=1.0.0-alpha.1"
nb = "1"
riscv = "0.6"
