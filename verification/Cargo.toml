[package]
name = "netns_bridge"
version = "0.1.0"
edition = "2021"
publish = false

[dependencies]
ipnet = "2"
rand = "0.8"
nix = { version = "0.26", default-features = false, features = ["sched"] }
log = "0.4"
