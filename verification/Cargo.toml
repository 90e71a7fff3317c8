[package]
name = "code_scan"
version = "0.1.0"
edition = "2021"
publish = false

[dependencies]
tree-sitter = "*"
tree-sitter-go = "*"
tree-sitter-javascript = "*"
tree-sitter-python = "*"
tree-sitter-rust = "*"
tree-sitter-typescript = "*"
streaming-iterator = "*"
ignore = "*"
rayon = "*"
serde = { version = "*", features = ["derive"] }
