[package]
name = "shapediff"
version = "0.1.0"
edition = "2021"
publish = false

[dependencies]
harfbuzz_rs = "*"
clap = { version = "*", features = ["derive"] }
