[package]
name = "speedreader"
version = "0.1.0"
edition = "2021"
publish = false

[dependencies]
unicode-width = "*"
clap = { version = "*", features = ["derive"] }
console = "*"
crossterm = "*"
dirs = "*"
indicatif = "*"
reqwest = { version = "*", default-features = false, features = ["json"] }
serde = { version = "*", features = ["derive"] }
thiserror = "*"
tokio = { version = "*", features = ["macros", "rt-multi-thread"] }
toml = "*"
