[package]
name = "swc_plugin_fluxel"
version = "0.1.0"
edition = "2021"
publish = false

[dependencies]
swc_core = { version = "*", features = ["ecma_ast", "ecma_visit", "ecma_plugin_transform"] }
