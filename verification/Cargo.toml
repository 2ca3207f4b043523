[package]
name = "mm_cli"
version = "0.1.0"
edition = "2021"
publish = false

[dependencies]
anyhow = "*"
base64 = "*"
chrono = "*"
clap = { version = "*", features = ["derive"] }
colored = "*"
flate2 = "*"
reqwest = { version = "*", default-features = false, features = ["json"] }
rpassword = "*"
serde = { version = "*", features = ["derive"] }
tabled = "*"
tar = "*"
tokio = { version = "*", features = ["macros", "rt-multi-thread", "process"] }
toml = "*"
