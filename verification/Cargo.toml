[package]
name = "yt_dli"
version = "0.1.0"
edition = "2021"
publish = false

[dependencies]
icu_collator = "*"
icu_provider = "*"
shlex = "*"
clap = { version = "*", features = ["derive"] }
clap_complete = "*"
dialoguer = "*"
directories = "*"
