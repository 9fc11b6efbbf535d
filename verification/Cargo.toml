[package]
name = "nucleus"
version = "0.1.0"
edition = "2021"
publish = false

[dependencies]
cortex-a = { version = "=8.1.1", default-features = false }
qemu-exit = "=4.0.0"
register = "=0.5.1"
