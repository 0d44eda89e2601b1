[package]
name = "candid_language_server"
version = "0.1.0"
edition = "2021"
publish = false

[dependencies]
candid_parser = "=0.4.1"
dashmap = "=6.2.1"
im-rc = "=15.1.0"
lalrpop-util = "=0.20.2"
num-traits = "=0.2.19"
rapidhash = "=4.5.1"
ropey = "=1.6.1"
rust-lapper = "=1.3.0"
serde_json = "=1.0.154"
thiserror = "=2.0.21"
tokio = { version = "=1.54.1", features = ["io-std", "macros", "rt-multi-thread"] }
tower-lsp-server = "=0.23.0"
