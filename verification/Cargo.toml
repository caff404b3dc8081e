[package]
name = "rdap_checks"
version = "0.1.0"
edition = "2021"
publish = false

[dependencies]
ipnet = "2"
prefix-trie = "*"
async-trait = "*"
axum = "*"
directories = "*"
envmnt = "*"
hickory-client = "0.24"
http = "*"
hyper = "*"
reqwest = { version = "*", default-features = false, features = ["json"] }
serde = { version = "*", features = ["derive"] }
serde_json = "*"
thiserror = "*"
tokio = { version = "*", features = ["rt-multi-thread", "macros", "net"] }
tracing = "*"
url = "*"
