[package]
name = "binstalk_resolve"
version = "0.1.0"
edition = "2021"
publish = false

[dependencies]
semver = "*"
itertools = "*"
cargo_toml = "*"
compact_str = "*"
crates_io_api = "*"
log = "*"
reqwest = { version = "*", default-features = false }
tokio = { version = "*", features = ["rt-multi-thread", "macros"] }
