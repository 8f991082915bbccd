[package]
name = "keyra"
version = "0.1.0"
edition = "2021"
publish = false

[dependencies]
dashmap = "=6.2.1"
serde = { version = "=1.0.229", features = ["derive"] }
serde_json = "=1.0.154"
config = "=0.15.27"
actix-web = { version = "=4.18.1", default-features = false, features = ["macros"] }
glommio = "=0.9.0"
futures = "=0.3.34"
futures-lite = "=2.6.1"
tokio = { version = "=1.54.1", features = ["net", "io-util", "rt", "macros"] }
num_cpus = "=1.17.0"
jemallocator = "=0.5.4"
