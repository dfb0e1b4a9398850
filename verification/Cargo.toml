[package]
name = "blue_gate"
version = "0.1.0"
edition = "2021"
publish = false

[dependencies]
sha2 = "*"
ed25519-dalek = "*"
p256 = "*"
heapless = "0.8"
