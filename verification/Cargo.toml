[package]
name = "slox"
version = "0.1.0"
edition = "2021"
publish = false

[dependencies]
clap = { version = "4", features = ["derive"] }
git2 = "0.19"
home = "0.5"
