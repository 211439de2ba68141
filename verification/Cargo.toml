[package]
name = "cargo-leptos"
version = "0.1.0"
edition = "2021"
publish = false

[dependencies]
camino = "1.1"
log = "0.4"
