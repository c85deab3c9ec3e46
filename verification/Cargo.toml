[package]
name = "tinkoff"
version = "0.1.0"
edition = "2021"
publish = false

[dependencies]
iso_currency = "*"
chrono = "*"
clap = { version = "*", features = ["cargo"] }
comfy-table = "*"
num-format = "*"
indicatif = "*"
tokio = { version = "*", features = ["macros", "rt-multi-thread"] }
tinkoff-invest-api = "*"
prost-types = "*"
