[package]
name = "basictest"
version = "0.1.0"
edition = "2021"
publish = false

[dependencies]
ink_lang = "3"
ink_env = "3"
