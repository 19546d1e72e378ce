[package]
name = "shared_resources"
version = "0.1.0"
edition = "2021"
publish = false

[dependencies]
atomic_refcell = "*"
