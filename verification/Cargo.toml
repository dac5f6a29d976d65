[package]
name = "license"
version = "0.1.0"
edition = "2021"
publish = false

[dependencies]
directories = "*"
ureq = { version = "2", default-features = false }
clap = "2"
