[package]
name = "errchain"
version = "0.1.0"
edition = "2021"
publish = false

[dependencies]
regex = "*"
colored = "*"
pest = "*"
pest_derive = "*"
