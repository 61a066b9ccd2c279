[package]
name = "hashscan"
version = "0.1.0"
edition = "2021"
publish = false

[dependencies]
sha1 = "*"
content_inspector = "*"
clap = "*"
pbr = "*"
tantivy = "*"
threadpool = "*"
walkdir = "*"
