[package]
name = "atsamd21_hal"
version = "0.1.0"
edition = "2021"
publish = false

[dependencies]
atsamd21g18a = "*"
