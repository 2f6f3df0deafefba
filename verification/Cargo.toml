[package]
name = "repo_sync"
version = "0.1.0"
edition = "2021"
publish = false

[dependencies]
quick-xml = "0.36"
threadpool = "1"
