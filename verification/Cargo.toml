[package]
name = "convoy"
version = "0.1.0"
edition = "2021"
publish = false

[dependencies]
async-trait = "*"
futures-lite = "*"
rdkafka = "*"
tracing = "*"
