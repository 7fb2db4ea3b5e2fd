[package]
name = "xlsx_sheet"
version = "0.1.0"
edition = "2021"
publish = false

[dependencies]
rust_xlsxwriter = "*"
neon = "*"
