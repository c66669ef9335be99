[package]
name = "odbc_handles"
version = "0.1.0"
edition = "2021"
publish = false

[dependencies]
odbc-sys = "*"
