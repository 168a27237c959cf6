[package]
name = "shellcaster"
version = "0.1.0"
edition = "2021"
publish = false

[dependencies]
regex = "1"
unicode-segmentation = "1"
textwrap = "0.16"
chrono = "0.4"
opml = "1"
rss = "2"
sanitize-filename = "0.5"
escaper = "0.1"
crossterm = "0.27"
rusqlite = { version = "0.29", features = ["bundled"] }
ureq = "2"
dirs = "5"
toml = "0.8"
serde = { version = "1", features = ["derive"] }
anyhow = "1"
shellexpand = "3"
