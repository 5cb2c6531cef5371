[package]
name = "clocktower"
version = "0.1.0"
edition = "2021"
publish = false

[dependencies]
anyhow = "*"
chrono = "*"
chrono-english = "*"
clap = { version = "*", features = ["derive"] }
diesel = { version = "*", features = ["postgres", "chrono"] }
dotenvy = "*"
tabled = "*"
