[package]
name = "zod_gen_derive"
version = "0.1.0"
edition = "2021"
publish = false

[dependencies]
zod_gen = "*"
syn = "2"
quote = "1"
proc-macro2 = "1"
