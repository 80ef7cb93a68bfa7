[package]
name = "spinner"
version = "0.1.0"
edition = "2021"
publish = false

[dependencies]
colored = "=3.1.1"
crossbeam = "=0.8.5"
term_size = "=0.3.2"
threadpool = "*"
unicode-width = "=0.2.2"
