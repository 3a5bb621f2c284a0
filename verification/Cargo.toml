[package]
name = "rssdownloader_rs"
version = "0.1.0"
edition = "2021"
publish = false

[dependencies]
toml = "*"
regex = "*"
rusqlite = { version = "*", features = ["bundled"] }
rss = "*"
dirs = "*"
reqwest = { version = "*", default-features = false, features = ["blocking", "gzip"] }
clap = "*"
log = "*"
fern = { version = "*", features = ["colored"] }
chrono = "*"
lazy_static = "*"
