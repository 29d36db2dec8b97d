[package]
name = "token_program_instructions"
version = "0.1.0"
edition = "2021"
publish = false

[dependencies]
anyhow = "1"
substreams = "*"
