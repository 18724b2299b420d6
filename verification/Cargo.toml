[package]
name = "git_commitizen"
version = "0.1.0"
edition = "2021"
publish = false

[dependencies]
git2 = { version = "=0.21.0", default-features = false }
promkit = "=0.4.6"
tempfile = "=3.27.0"
