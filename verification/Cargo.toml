[package]
name = "fakepostmaster"
version = "0.1.0"
edition = "2021"
publish = false

[dependencies]
anyhow = "1"
bytes = "1"
md-5 = "0.10"
tracing = "0.1"
