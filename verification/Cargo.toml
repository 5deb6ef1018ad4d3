[package]
name = "spotifyimport"
version = "0.1.0"
edition = "2021"
publish = false

[dependencies]
anyhow = "1"
chrono = "0.4"
cookie = "*"
futures = "0.3"
getopts = "0.2"
log = "0.4"
logosaurus = "*"
reqwest = { version = "*", features = ["json"] }
serde = { version = "1", features = ["derive"] }
serde_json = "1"
spmc = "*"
surf = { version = "2", default-features = false, features = ["h1-client"] }
tokio = { version = "1", features = ["macros", "rt-multi-thread", "sync"] }
