[package]
name = "bios_boot"
version = "0.1.0"
edition = "2021"
publish = false

[dependencies]
bit_field = "=0.10.3"
bitflags = "=1.3.2"
log = "=0.4.34"
rsdp = "2"
x86_64 = { version = "=0.14.13", default-features = false, features = ["instructions"] }
