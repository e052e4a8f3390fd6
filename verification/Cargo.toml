[package]
name = "drep_builder"
version = "0.1.0"
edition = "2021"
publish = false

[dependencies]
pallas-addresses = "=0.35.1"
pallas-codec = "=0.35.1"
pallas-crypto = "=0.35.1"
pallas-primitives = "=0.35.1"
uplc = "=1.1.24"
clap = "=4.6.7"
indoc = "=2.0.7"
hex = "=0.4.3"
tokio = { version = "=1.53.2", features = ["macros", "rt-multi-thread"] }
reqwest = { version = "=0.13.5", default-features = false }
