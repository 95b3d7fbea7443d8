[package]
name = "sdio_host"
version = "0.1.0"
edition = "2021"

[dependencies]
bitflags = "2"
log = "0.4"
