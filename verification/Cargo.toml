[package]
name = "eszett"
version = "0.1.0"
edition = "2021"
publish = false

[dependencies]
regex = "1"
swc_core = { version = "*", features = ["common", "ecma_ast", "ecma_visit", "ecma_plugin_transform"] }
