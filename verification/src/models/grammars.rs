//! The tree-sitter grammars, queries and parsers that a language configuration
//! works with, and the trusted calls that make them.

use vstd::prelude::*;

use crate::models::language::SupportedLanguage;

verus! {

/// A grammar handle of tree-sitter; opaque to the library.
#[verifier::external_type_specification]
#[verifier::external_body]
pub struct ExLanguage(tree_sitter::Language);

/// A compiled tree-sitter query; opaque to the library.
#[verifier::external_type_specification]
#[verifier::external_body]
pub struct ExQuery(tree_sitter::Query);

/// The error tree-sitter reports for a query it cannot compile.
#[verifier::external_type_specification]
#[verifier::external_body]
pub struct ExQueryError(tree_sitter::QueryError);

/// A tree-sitter parser; opaque to the library.
#[verifier::external_type_specification]
#[verifier::external_body]
pub struct ExParser(tree_sitter::Parser);

/// The error tree-sitter reports for a grammar a parser cannot load.
#[verifier::external_type_specification]
#[verifier::external_body]
pub struct ExLanguageError(tree_sitter::LanguageError);

/// The ABI version of the bundled grammar of `language`: the `LANGUAGE_VERSION`
/// that each grammar crate's generated `src/parser.c` defines, and that
/// `tree_sitter::Language::version` reports of its handle.
pub open spec fn grammar_abi_version(language: SupportedLanguage) -> usize {
    match language {
        SupportedLanguage::Kotlin => 13,
        _ => 14,
    }
}

/// Whether the tree-sitter runtime loads grammars of ABI `version`: it lies
/// between its `MIN_COMPATIBLE_LANGUAGE_VERSION` (13) and its
/// `LANGUAGE_VERSION` (14).
pub open spec fn runtime_loads(version: usize) -> bool {
    13 <= version <= 14
}

/// Whether `source` is empty or ends in whitespace or a closing bracket. Where
/// `tree_sitter::Query::new` reports an unknown node kind, field or capture, it
/// cuts the name out of the source up to the next character that is not
/// alphanumeric, `_` or `-`; such a last character bounds that cut.
pub open spec fn ends_in_delimiter(source: Seq<char>) -> bool {
    source.len() == 0 || {
        let last = source.last();
        last == ')' || last == ']' || last == ' ' || last == '\n' || last == '\t' || last == '\r'
    }
}

/// Whether tree-sitter compiles `source` as a query over the grammar of `language`.
pub uninterp spec fn query_compiles(language: SupportedLanguage, source: Seq<char>) -> bool;

/// A tree-sitter grammar handle, with the supported language it is the grammar
/// of. Only the grammar functions below make one.
#[derive(Debug, PartialEq)]
pub struct Grammar {
    handle: tree_sitter::Language,
    language: SupportedLanguage,
}

impl View for Grammar {
    type V = SupportedLanguage;

    closed spec fn view(&self) -> SupportedLanguage {
        self.language
    }
}

impl Grammar {
    /// The tree-sitter handle.
    pub closed spec fn raw(&self) -> tree_sitter::Language {
        self.handle
    }

    /// The tree-sitter handle.
    pub fn handle(&self) -> (handle: &tree_sitter::Language)
        ensures
            *handle == self.raw(),
    {
        &self.handle
    }
}

impl Clone for Grammar {
    fn clone(&self) -> (copy: Self)
        ensures
            copy@ == self@,
            copy.raw() == self.raw(),
    {
        Grammar { handle: self.handle, language: self.language }
    }
}

/// A tree-sitter query, with the language whose grammar compiled it and the
/// source it was compiled from. Only `compile_query` makes one.
#[derive(Debug)]
pub struct CompiledQuery {
    query: tree_sitter::Query,
    language: SupportedLanguage,
    source: String,
}

impl View for CompiledQuery {
    type V = (SupportedLanguage, Seq<char>);

    closed spec fn view(&self) -> (SupportedLanguage, Seq<char>) {
        (self.language, self.source@)
    }
}

impl CompiledQuery {
    /// The language whose grammar compiled the query.
    pub fn language(&self) -> (language: SupportedLanguage)
        ensures
            language == self@.0,
    {
        self.language
    }

    /// The source the query was compiled from.
    pub fn source(&self) -> (source: &String)
        ensures
            source@ == self@.1,
    {
        &self.source
    }

    /// The tree-sitter query.
    pub closed spec fn raw(&self) -> tree_sitter::Query {
        self.query
    }

    /// The tree-sitter query.
    pub fn query(&self) -> (query: &tree_sitter::Query)
        ensures
            *query == self.raw(),
    {
        &self.query
    }

    /// The tree-sitter query, taken out.
    pub fn into_query(self) -> (query: tree_sitter::Query)
        ensures
            query == self.raw(),
    {
        self.query
    }
}

/// A tree-sitter parser, with the language whose grammar it is set to, if any.
/// Only `new_parser` and `load_grammar` make or change one.
pub struct LanguageParser {
    parser: tree_sitter::Parser,
    language: Option<SupportedLanguage>,
}

impl View for LanguageParser {
    type V = Option<SupportedLanguage>;

    closed spec fn view(&self) -> Option<SupportedLanguage> {
        self.language
    }
}

impl LanguageParser {
    /// The language whose grammar the parser is set to, if any.
    pub fn language(&self) -> (language: Option<SupportedLanguage>)
        ensures
            language == self@,
    {
        self.language
    }

    /// The tree-sitter parser.
    pub closed spec fn raw(&self) -> tree_sitter::Parser {
        self.parser
    }

    /// The tree-sitter parser, taken out.
    pub fn into_parser(self) -> (parser: tree_sitter::Parser)
        ensures
            parser == self.raw(),
    {
        self.parser
    }
}

/// Calls `tree_sitter::Parser::new()`. Claimed, as its source shows: a new
/// parser is set to no grammar.
#[verifier::external_body]
pub(crate) fn new_parser() -> (parser: LanguageParser)
    ensures
        parser@ is None,
{
    LanguageParser { parser: tree_sitter::Parser::new(), language: None }
}

/// Calls `tree_sitter::Parser::set_language` with the grammar's handle. Claimed,
/// as its source shows: it fails exactly when the grammar's ABI version lies
/// outside the range the runtime loads; on success the parser is set to that
/// grammar, and on failure it is left as it was.
#[verifier::external_body]
pub(crate) fn load_grammar(parser: &mut LanguageParser, grammar: &Grammar) -> (loaded: Result<
    (),
    tree_sitter::LanguageError,
>)
    ensures
        loaded is Ok <==> runtime_loads(grammar_abi_version(grammar@)),
        loaded is Ok ==> final(parser)@ == Some(grammar@),
        loaded is Err ==> final(parser)@ == old(parser)@,
{
    match parser.parser.set_language(grammar.handle) {
        Ok(()) => {
            parser.language = Some(grammar.language);
            Ok(())
        },
        Err(error) => Err(error),
    }
}

/// Calls `tree_sitter::Query::new` with the grammar's handle and `source`.
/// Claimed: it succeeds exactly when `query_compiles` holds of the grammar's
/// language and the source, and a query it returns records both. On a source
/// that ends in a name character the call can panic while it builds its error
/// message; `requires` leaves such sources out.
#[verifier::external_body]
pub(crate) fn compile_query(grammar: &Grammar, source: String) -> (query: Result<
    CompiledQuery,
    tree_sitter::QueryError,
>)
    requires
        ends_in_delimiter(source@),
    ensures
        query is Ok <==> query_compiles(grammar@, source@),
        query matches Ok(compiled) ==> compiled@ == (grammar@, source@),
{
    match tree_sitter::Query::new(grammar.handle, source.as_str()) {
        Ok(query) => Ok(CompiledQuery { query, language: grammar.language, source }),
        Err(error) => Err(error),
    }
}

/// Calls `tree_sitter_java::language()`, the grammar of `SupportedLanguage::Java`, and pairs
/// its handle with `language`, which `requires` holds to that language.
#[verifier::external_body]
pub(crate) fn java_grammar(language: SupportedLanguage) -> (grammar: Grammar)
    requires
        language == SupportedLanguage::Java,
    ensures
        grammar@ == language,
{
    Grammar { handle: tree_sitter_java::language(), language }
}

/// Calls `tree_sitter_kotlin::language()`, the grammar of `SupportedLanguage::Kotlin`, and pairs
/// its handle with `language`, which `requires` holds to that language.
#[verifier::external_body]
pub(crate) fn kotlin_grammar(language: SupportedLanguage) -> (grammar: Grammar)
    requires
        language == SupportedLanguage::Kotlin,
    ensures
        grammar@ == language,
{
    Grammar { handle: tree_sitter_kotlin::language(), language }
}

/// Calls `tree_sitter_go::language()`, the grammar of `SupportedLanguage::Go`, and pairs
/// its handle with `language`, which `requires` holds to that language.
#[verifier::external_body]
pub(crate) fn go_grammar(language: SupportedLanguage) -> (grammar: Grammar)
    requires
        language == SupportedLanguage::Go,
    ensures
        grammar@ == language,
{
    Grammar { handle: tree_sitter_go::language(), language }
}

/// Calls `tree_sitter_swift::language()`, the grammar of `SupportedLanguage::Swift`, and pairs
/// its handle with `language`, which `requires` holds to that language.
#[verifier::external_body]
pub(crate) fn swift_grammar(language: SupportedLanguage) -> (grammar: Grammar)
    requires
        language == SupportedLanguage::Swift,
    ensures
        grammar@ == language,
{
    Grammar { handle: tree_sitter_swift::language(), language }
}

/// Calls `tree_sitter_python::language()`, the grammar of `SupportedLanguage::Python`, and pairs
/// its handle with `language`, which `requires` holds to that language.
#[verifier::external_body]
pub(crate) fn python_grammar(language: SupportedLanguage) -> (grammar: Grammar)
    requires
        language == SupportedLanguage::Python,
    ensures
        grammar@ == language,
{
    Grammar { handle: tree_sitter_python::language(), language }
}

/// Calls `tree_sitter_typescript::language_typescript()`, the grammar of `SupportedLanguage::Ts`, and pairs
/// its handle with `language`, which `requires` holds to that language.
#[verifier::external_body]
pub(crate) fn typescript_grammar(language: SupportedLanguage) -> (grammar: Grammar)
    requires
        language == SupportedLanguage::Ts,
    ensures
        grammar@ == language,
{
    Grammar { handle: tree_sitter_typescript::language_typescript(), language }
}

/// Calls `tree_sitter_typescript::language_tsx()`, the grammar of `SupportedLanguage::Tsx`, and pairs
/// its handle with `language`, which `requires` holds to that language.
#[verifier::external_body]
pub(crate) fn tsx_grammar(language: SupportedLanguage) -> (grammar: Grammar)
    requires
        language == SupportedLanguage::Tsx,
    ensures
        grammar@ == language,
{
    Grammar { handle: tree_sitter_typescript::language_tsx(), language }
}

} // verus!
