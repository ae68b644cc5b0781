[package]
name = "ebyte_e32_ui"
version = "0.1.0"
edition = "2021"
publish = false

[dependencies]
anyhow = "1"
clap = { version = "=4.6.7", features = ["derive"] }
ebyte-e32 = "=0.10.0"
embedded-hal = "=1.0.0"
embedded-hal-nb = "=1.0.0"
nb = "=1.1.0"
rustyline = "=18.0.1"
serial = "=0.4.0"
serial-core = "=0.4.0"
