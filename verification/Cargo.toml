[package]
name = "random_test_cli"
version = "0.1.0"
edition = "2021"
publish = false

[dependencies]
clap = { version = "*", features = ["derive"] }
clap_complete = "*"
cp-ast-core = "*"
cp-ast-json = "*"
rand = "*"
serde = { version = "*", features = ["derive"] }
serde_json = "*"
thiserror = "*"
url = "*"
webbrowser = "*"
