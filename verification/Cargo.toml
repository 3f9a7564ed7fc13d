[package]
name = "uniffi_dart"
version = "0.1.0"
edition = "2021"
publish = false

[dependencies]
heck = "=0.5.0"
uniffi_bindgen = "=0.32.2"
uniffi_testing = "=0.32.2"
uniffi_udl = "=0.32.2"
anyhow = "=1.0.104"
camino = "=1.2.6"
glob = "=0.3.4"
