[package]
name = "fromenv_field"
version = "0.1.0"
edition = "2021"
publish = false

[dependencies]
darling = "=0.20.11"
proc-macro2 = { version = "=1.0.107", features = ["span-locations"] }
syn = { version = "=2.0.119", features = ["full", "extra-traits"] }
