[package]
name = "yarhos"
version = "0.1.0"
edition = "2021"
publish = false

[dependencies]
x86_64 = { version = "=0.14.13", default-features = false, features = ["instructions"] }
spin = "=0.12.3"
volatile = "=0.2.7"
lazy_static = "=1.5.1"
bootloader = "=0.9.35"
