[package]
name = "strutils"
version = "0.1.0"
edition = "2021"
rust-version = "1.95"
publish = false

[dependencies]
deunicode = "=1.6.2"
nu-plugin = { version = "=0.114.1", default-features = false }
nu-protocol = "=0.114.1"

[dev-dependencies]
nu-plugin-test-support = "=0.114.1"
