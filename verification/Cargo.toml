[package]
name = "falkordb_cli"
version = "0.1.0"
edition = "2021"
publish = false

[dependencies]
anyhow = "1"
clap = "4"
colored = "*"
falkordb = "*"
rustyline = "*"
serde_json = "1"
