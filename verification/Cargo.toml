[package]
name = "virtio_mmio"
version = "0.1.0"
edition = "2021"
publish = false

[dependencies]
volatile = "0.2"
