pub mod default_configs;
pub mod language;
pub mod grammars;
