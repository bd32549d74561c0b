[package]
name = "r_os"
version = "0.1.0"
edition = "2021"
publish = false

[dependencies]
pc-keyboard = "0.5"
pic8259_simple = "0.2"
x86_64 = { version = "0.15", default-features = false, features = ["instructions"] }
spin = "0.5"
lazy_static = { version = "1", features = ["spin_no_std"] }
bootloader = "0.9"
