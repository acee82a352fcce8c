//! Language configurations for a polyglot code-rewriting tool: which tree-sitter
//! grammar serves each supported language, under which name it is selected, and
//! which syntax-node kinds are comments in it.

pub mod models;
