[package]
name = "reta"
version = "0.1.0"
edition = "2021"
publish = false

[dependencies]
syn = { version = "=3.0.9", features = ["full", "parsing", "printing", "extra-traits"] }
quote = "=1.0.47"
proc-macro2 = "=1.0.107"
rustversion = "=1.0.23"
