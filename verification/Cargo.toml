[package]
name = "unstake_pool"
version = "0.1.0"
edition = "2021"
publish = false

[dependencies]
duplicate = "1.0"
thiserror = "1.0"
