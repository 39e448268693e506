[package]
name = "coap_dispatch"
version = "0.1.0"
edition = "2021"
publish = false

[dependencies]
coap-lite = "*"
tokio = { version = "*", features = ["net", "sync", "rt", "rt-multi-thread", "macros", "time"] }
futures = "*"
async-trait = "*"
