[package]
name = "lore_seeker_desktop"
version = "0.1.0"
edition = "2021"
publish = false

[dependencies]
azul = "*"
cargo_metadata = "*"
itertools = "*"
open = "*"
reqwest = { version = "*", features = ["blocking", "json"] }
semver = "*"
serde = { version = "*", features = ["derive"] }
serde_json = "*"
tempfile = "*"
urlencoding = "*"
wrapped_enum = "*"
