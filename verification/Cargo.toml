[package]
name = "translator"
version = "0.1.0"
edition = "2021"
publish = false

[dependencies]
syn = { version = "0.12", features = ["full", "extra-traits"] }
proc-macro2 = "0.2"
quote = "0.4"
