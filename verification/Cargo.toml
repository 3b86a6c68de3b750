[package]
name = "chat_prompt"
version = "0.1.0"
edition = "2021"
rust-version = "1.95"
publish = false

[dependencies]
liquid = "=0.26.11"
liquid-lib = { version = "=0.26.11", features = ["stdlib"] }
# Pins liquid's key-string crate: its later patches ask for a rustc newer
# than rust-version above.
kstring = "=2.0.0"
