[package]
name = "git_flow"
version = "0.1.0"
edition = "2021"
publish = false

[dependencies]
git2 = { version = "*", default-features = false }
clap = "2"
thiserror = "1"

[dev-dependencies]
tempfile = "3"
