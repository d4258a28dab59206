[package]
name = "overload_lint"
version = "0.1.0"
edition = "2021"
publish = false

[dependencies]
once_cell = "1"
regex = "1"
swc_common = "*"
swc_ecmascript = { version = "*", features = ["parser", "visit"] }
