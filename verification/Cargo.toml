[package]
name = "up"
version = "0.1.0"
edition = "2021"
publish = false

[dependencies]
anyhow = "=1.0.104"
bytesize = "=1.3.3"
chrono = { version = "=0.4.45", features = ["serde"] }
clap = { version = "=3.2.25", features = ["derive"] }
compress-tools = { version = "=0.16.1", features = ["tokio_support"] }
dialoguer = "=0.10.4"
directories = "=4.0.1"
futures-lite = "=1.13.0"
indexmap = { version = "=1.9.3", features = ["serde"] }
indicatif = "0.17"
reqwest = { version = "=0.11.27", default-features = false, features = ["stream", "rustls-tls"] }
serde = { version = "=1.0.229", features = ["derive"] }
surf = { version = "=2.3.2", default-features = false, features = ["h1-client-rustls", "encoding"] }
target-lexicon = "=0.12.16"
tokio = { version = "=1.54.1", features = ["full"] }
toml = "=0.5.11"
