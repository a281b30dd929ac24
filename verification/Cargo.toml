[package]
name = "panic_search"
version = "0.1.0"
edition = "2021"
publish = false

[dependencies]
open = "1"
percent-encoding = "1.0"
