[package]
name = "swell"
version = "0.1.0"
edition = "2021"
publish = false

[dependencies]
crossbeam = "=0.8.5"
pitch_calc = "=0.12.0"
math = "=0.1.0"
