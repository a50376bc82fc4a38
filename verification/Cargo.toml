[package]
name = "processed_subtitles"
version = "0.1.0"
edition = "2021"
publish = false

[dependencies]
rusqlite = { version = "0.37", features = ["bundled"] }
directories = "6"
tokio = { version = "1", features = ["rt", "sync"] }
