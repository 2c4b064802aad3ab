[package]
name = "acrawl_runtime"
version = "0.1.0"
edition = "2021"
publish = false

[dependencies]
serde = { version = "=1.0.229", features = ["derive"] }
serde_json = "=1.0.154"
time = { version = "=0.3.55", features = ["formatting", "parsing"] }
tokio = { version = "=1.54.1", default-features = false, features = ["time", "rt"] }
reqwest = { version = "=0.12.28", default-features = false, features = ["json"] }
pulldown-cmark = { version = "0.13", default-features = false }
unicode-width = "0.2"
crossterm = "0.28"
ratatui = { version = "0.29", default-features = false }
