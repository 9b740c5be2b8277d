[package]
name = "spdk"
version = "0.1.0"
edition = "2021"
publish = false

[dependencies]
futures = "0.3"
libc = "0.2"
parking_lot = "0.12"
static_init = "1"
