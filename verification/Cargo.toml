[package]
name = "astrum_core"
version = "0.1.0"
edition = "2021"
publish = false

[dependencies]
rusqlite = { version = "*", features = ["bundled"] }
sha2 = "*"
nanoid = "*"
strsim = "*"
dirs = "*"
rand = "*"
