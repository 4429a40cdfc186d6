[package]
name = "nyr"
version = "0.1.0"
edition = "2021"
publish = false

[dependencies]
chrono = "0.4"
clap = { version = "4", features = ["derive"] }
directories = "*"
include_dir = "*"
iocraft = "*"
log = "0.4"
smol = "*"
sqlx = { version = "*", default-features = false, features = ["sqlite", "runtime-tokio", "chrono", "migrate", "macros"] }
tokio = { version = "1", features = ["macros", "rt-multi-thread"] }
