[package]
name = "jericho_os"
version = "0.1.0"
edition = "2021"
publish = false

[dependencies]
wasmi = "=2.0.0"
spin = "=0.12.3"
lazy_static = "=1.5.1"
linked_list_allocator = "=0.10.6"
x86_64 = { version = "=0.14.13", default-features = false, features = ["instructions"] }

[dev-dependencies]
wat = "=1.261.0"
