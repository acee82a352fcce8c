# piranha language configurations

A verified library that selects, by name, the configuration of one of the
languages a polyglot rewriting tool supports: its tree-sitter grammar, the name
that selected it, and the syntax-node kinds that are comments in it. It also
compiles tree-sitter queries and builds parsers over the configured grammar.
A configuration holds no rewrite rules, rule edges or scope configurations:
their types and data files are not part of this crate.

- `src/models/default_configs.rs`: the configuration names and the default one.
- `src/models/language.rs`: `SupportedLanguage`, `PiranhaLanguage`, the
  mathematical model of a configuration, and the laws proved of it.
- `src/models/grammars.rs`: the grammars, compiled queries and parsers the
  library works with, each recording the language it belongs to, and the
  trusted calls into tree-sitter that make them.
- `app/lib.rs`: the deserialisable copy of `SupportedLanguage` and the
  panicking entry points.
