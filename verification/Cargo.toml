[package]
name = "iced_disasm"
version = "0.1.0"
edition = "2021"
publish = false

[dependencies]
colored = "*"
iced-x86 = { version = "*", default-features = false, features = ["std", "decoder", "intel"] }
