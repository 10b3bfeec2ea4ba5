[package]
name = "version_selector"
version = "1.1.0"
edition = "2021"
publish = false

[dependencies]
const_format = "=0.2.37"
