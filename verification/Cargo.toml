[package]
name = "hwi"
version = "0.1.0"
edition = "2021"
publish = false

[dependencies]
async-trait = "0.1"
bitcoin = "0.29"
