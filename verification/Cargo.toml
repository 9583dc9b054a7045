[package]
name = "pandoc_bot"
version = "0.1.0"
edition = "2021"
publish = false

[dependencies]
anyhow = "=1.0.104"
bson = "=2.15.0"
futures-lite = "=1.13.0"
lapin = { version = "=2.5.5", default-features = false }
log = "=0.4.34"
pretty_env_logger = "=0.4.0"
serde = { version = "=1.0.229", features = ["derive"] }
# Not used directly: teloxide-core pulls it in, and 0.1.2 asks for a newer
# compiler than this crate is built with.
takecell = "<0.1.2"
teloxide = { version = "=0.9.2", default-features = false, features = ["ctrlc_handler", "macros", "rustls", "sqlite-storage"] }
tokio = { version = "=1.54.1", features = ["fs", "macros", "rt-multi-thread"] }
tokio-executor-trait = "=2.4.0"
tokio-reactor-trait = "=1.1.0"
