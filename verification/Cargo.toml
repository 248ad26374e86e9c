[package]
name = "sam3x_core"
version = "0.1.0"
edition = "2021"
publish = false

[dependencies]
cortex-m-rt = "0.7"
embedded-alloc = "0.5"
