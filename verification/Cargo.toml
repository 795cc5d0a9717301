[package]
name = "dw_apb_uart"
version = "0.1.0"
edition = "2021"
publish = false

[dependencies]
bitflags = "2"
safe-mmio = "*"
thiserror = "2"
zerocopy = "*"
embedded-io = "*"
