[package]
name = "gitql"
version = "0.1.0"
edition = "2021"
publish = false

[dependencies]
gitql-ast = "*"
gitql-core = "*"
regex = "*"
rustc_apfloat = "*"
