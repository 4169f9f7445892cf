[package]
name = "replay_diff"
version = "0.1.0"
edition = "2021"
publish = false

[dependencies]
crossbeam = "0.8"
curl = "0.4"
log = "0.4"
simple_logger = { version = "4", default-features = false }
structopt = "0.3"
