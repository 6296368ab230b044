[package]
name = "erl_sema"
version = "0.1.0"
edition = "2021"
publish = false

[dependencies]
anyhow = "1"
strsim = "0.10"
thiserror = "1"
