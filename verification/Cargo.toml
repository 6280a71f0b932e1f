[package]
name = "near_macros"
version = "0.1.0"
edition = "2021"
publish = false

[dependencies]
near-sdk = "3.1.0"
syn = { version = "1", features = ["full"] }
quote = "1"
proc-macro2 = "1"
