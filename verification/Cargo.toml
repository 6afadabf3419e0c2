[package]
name = "kakasi"
version = "0.1.0"
edition = "2021"
publish = false

[dependencies]
anyhow = "1"
clap = "3.2"
log = "0.4"
