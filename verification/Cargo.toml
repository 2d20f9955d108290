[package]
name = "db_pools_codegen"
version = "0.1.0"
edition = "2021"
publish = false

[dependencies]
devise = "0.4"
