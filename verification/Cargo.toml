[package]
name = "hello_message"
version = "0.1.0"
edition = "2021"
publish = false

[dependencies]
anchor-lang = { version = "=1.2.1", features = ["init-if-needed"] }

[dev-dependencies]
sha2 = "=0.10.9"
