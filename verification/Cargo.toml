[package]
name = "subspace_cli"
version = "0.1.0"
edition = "2021"
publish = false

[dependencies]
bytesize = "*"
tokio = { version = "*", features = ["full"] }
futures = "*"
indicatif = "*"
serde = { version = "*", features = ["derive"] }
toml = "*"
dirs = "*"
single-instance = "*"
tracing = "*"
tracing-subscriber = { version = "*", features = ["env-filter"] }
tracing-appender = "*"
tracing-error = "*"
tracing-bunyan-formatter = "*"
ansi_term = "*"
owo-colors = "*"
color-eyre = "*"
