[package]
name = "embassy-qemu-riscv"
version = "0.1.0"
edition = "2021"
publish = false

[dependencies]
critical-section = "1"
embassy-hal-internal = "*"
embassy-sync = "*"
embedded-hal = "1"
embedded-hal-async = "1"
embedded-io = "*"
embedded-io-async = "*"
embedded-mcu-hal = "*"
riscv = "*"
