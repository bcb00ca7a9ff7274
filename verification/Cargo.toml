[package]
name = "dirinfo"
version = "0.1.0"
edition = "2021"
publish = false

[dependencies]
colored = "=3.1.1"
git2 = { version = "=0.20.4", default-features = false }
tokio = { version = "=1.54.1", features = ["macros", "rt-multi-thread"] }
