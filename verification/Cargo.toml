[package]
name = "komodo_core_config"
version = "0.1.0"
edition = "2021"
publish = false

[dependencies]
url = "2"
urlencoding = "2"
async_timing_util = "*"
mogh_pki = "*"
mogh_secret_file = "*"
mogh_config = "*"
envy = "*"
serde = { version = "1", features = ["derive"] }
colored = "*"
anyhow = "1"
