[package]
name = "serde_annotate"
version = "0.1.0"
edition = "2021"
publish = false

[dependencies]
proc-macro2 = "1"
quote = "1"
scopeguard = "1"
serde = "1"
syn = { version = "2", features = ["extra-traits"] }
