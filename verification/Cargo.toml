[package]
name = "germ"
version = "0.1.0"
edition = "2021"
publish = false

[dependencies]
mio = { version = "*", features = ["os-poll", "os-ext"] }
futures = "*"
toml = "*"
xdg = "*"
serde = { version = "*", features = ["derive"] }
