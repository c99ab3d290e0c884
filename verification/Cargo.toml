[package]
name = "robusta-codegen"
version = "0.1.0"
edition = "2021"
publish = false

[dependencies]
proc-macro2 = "1"
quote = "1"
syn = { version = "1", features = ["full", "fold", "visit", "extra-traits"] }
darling = "0.10"
proc-macro-error = "1"
