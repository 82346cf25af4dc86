[package]
name = "open_cypher"
version = "0.1.0"
edition = "2021"
publish = false

[dependencies]
clap = { version = "4", features = ["derive"] }
pest = "2"
pest_derive = "2"

[dev-dependencies]
pest_meta = "2"
pest_vm = "2"
