[package]
name = "prop_logic"
version = "0.1.0"
edition = "2021"
publish = false

[dependencies]
bit-vec = "*"
num-traits = "*"
strum = "*"
strum_macros = "*"
enum-primitive-derive = "*"
