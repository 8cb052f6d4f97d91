[package]
name = "proc_macro_api"
version = "0.1.0"
edition = "2021"
publish = false

[dependencies]
ra_ap_paths = ">=0.0.100, <0.0.125"
ra_ap_tt = ">=0.0.100, <0.0.125"
serde = { version = "1", features = ["derive"] }
serde_json = "1"
