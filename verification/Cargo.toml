[package]
name = "assetwrap"
version = "0.1.0"
edition = "2021"
publish = false

[dependencies]
globset = "*"
hex = "*"
sha2 = "*"
image = "0.24"
lightningcss = "1.0.0-alpha.72"
serde = { version = "*", features = ["derive"] }
serde_json = "*"
clap = { version = "*", features = ["derive"] }
walkdir = "*"
mime_guess = "*"
rayon = "*"
rust-s3 = { version = "*", default-features = false, features = ["sync"] }
