[package]
name = "aegis_mk"
version = "0.1.0"
edition = "2021"
publish = false

[dependencies]
heapless = "=0.8.0"
sha2 = { version = "=0.10.9", default-features = false }
spin = "=0.9.9"
log = "=0.4.35"
uart_16550 = "=0.3.2"
x86_64 = { version = "=0.15.5", default-features = false, features = ["instructions"] }
linked_list_allocator = "=0.10.6"
uefi = "=0.26.0"
