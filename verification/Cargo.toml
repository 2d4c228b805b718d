[package]
name = "cloud_connect"
version = "0.1.0"
edition = "2021"
publish = false

[dependencies]
anyhow = "*"
clap = { version = "*", features = ["derive", "env"] }
clap_complete = "*"
dirs = "*"
owo-colors = "*"
serde = { version = "*", features = ["derive"] }
tabled = "*"
tokio = { version = "*", features = ["macros", "rt-multi-thread"] }
toml = "*"
which = "*"
