[package]
name = "workspacers"
version = "0.1.0"
edition = "2021"
publish = false

[dependencies]
async-trait = "*"
clap = { version = "*", features = ["derive"] }
config = { version = "*", default-features = false, features = ["toml"] }
dirs-next = "*"
fzf-wrapped = "*"
log = "*"
nvim-rs = { version = "*", features = ["use_tokio"] }
rustyline = "*"
serde = { version = "*", features = ["derive"] }
serde_json = "*"
simplelog = "*"
tokio = { version = "*", features = ["full"] }
toml = "*"
