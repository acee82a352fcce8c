[package]
name = "piranha"
version = "0.1.0"
edition = "2021"
publish = false

[dependencies]
tree-sitter = "0.20"
tree-sitter-java = "0.20"
tree-sitter-go = "0.20"
tree-sitter-kotlin = "0.2"
tree-sitter-python = "0.20"
tree-sitter-swift = "0.3"
tree-sitter-typescript = "0.20"
serde = "1"
serde_derive = "1"
