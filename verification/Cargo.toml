[package]
name = "fix_schema"
version = "0.1.0"
edition = "2021"
publish = false

[dependencies]
convert_case = "*"
easyfix-dictionary = "*"
proc-macro2 = "*"
quote = "*"
