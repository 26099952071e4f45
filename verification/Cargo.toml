[package]
name = "hadron"
version = "0.1.0"
edition = "2021"
publish = false

[dependencies]
bit_field = "=0.10.3"
lazy_static = { version = "=1.5.1", features = ["spin_no_std"] }
spin = "=0.9.9"
limine = "0.5"
