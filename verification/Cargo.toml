[package]
name = "xrtf"
version = "0.1.0"
edition = "2021"
publish = false

[dependencies]
volatile = { version = "=0.6.1", features = ["derive"] }
x86_64 = { version = "=0.15.5", default-features = false, features = ["instructions"] }
uart_16550 = "=0.3.2"
atomic_refcell = "=0.1.14"
log = "=0.4.34"
