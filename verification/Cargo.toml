[package]
name = "git_acm"
version = "0.1.0"
edition = "2021"
publish = false

[dependencies]
serde_json = "=1.0.154"
serde = { version = "=1.0.229", features = ["derive"] }
openrouter-rs = "=0.21.0"
isahc = "=1.8.3"
tokio = { version = "=1.54.1", features = ["macros", "rt-multi-thread", "time"] }
clap = "=4.6.7"
crossterm = "=0.29.0"
directories = "=6.0.0"
dotenvy = "=0.15.7"
duct = "=1.1.2"
yansi = "=1.0.1"
arboard = { version = "=3.7.0", default-features = false }
