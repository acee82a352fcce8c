//! A language configuration: the grammar, the selecting name and the comment
//! node kinds of one supported language.

use vstd::prelude::*;
use vstd::string::StrSliceExecFns;
use vstd::string::StringExecFns;

use crate::models::default_configs::{default_language, GO, JAVA, KOTLIN, PYTHON, SWIFT, TSX, TYPESCRIPT};
use crate::models::grammars::{
    compile_query, ends_in_delimiter, go_grammar, grammar_abi_version, java_grammar, kotlin_grammar, load_grammar,
    new_parser, python_grammar, query_compiles, runtime_loads, swift_grammar, tsx_grammar,
    typescript_grammar, CompiledQuery, Grammar, LanguageParser,
};

verus! {

/// The languages for which a configuration exists.
#[derive(Debug, Clone, Copy, PartialEq, Eq, Structural)]
pub enum SupportedLanguage {
    Java,
    Kotlin,
    Go,
    Swift,
    Ts,
    Tsx,
    Python,
}

impl Default for SupportedLanguage {
    fn default() -> (language: Self)
        ensures
            language == SupportedLanguage::Java,
    {
        SupportedLanguage::Java
    }
}

/// The name under which `language` is selected.
pub open spec fn name_of(language: SupportedLanguage) -> Seq<char> {
    match language {
        SupportedLanguage::Java => JAVA@,
        SupportedLanguage::Kotlin => KOTLIN@,
        SupportedLanguage::Go => GO@,
        SupportedLanguage::Swift => SWIFT@,
        SupportedLanguage::Ts => TYPESCRIPT@,
        SupportedLanguage::Tsx => TSX@,
        SupportedLanguage::Python => PYTHON@,
    }
}

/// The supported language that `name` selects, if any: the language whose
/// name it is.
pub open spec fn language_named(name: Seq<char>) -> Option<SupportedLanguage> {
    if exists|language: SupportedLanguage| #[trigger] name_of(language) == name {
        Some(choose|language: SupportedLanguage| #[trigger] name_of(language) == name)
    } else {
        None
    }
}

/// The syntax-node kinds that are comments in `language`'s grammar, in the
/// order in which the configuration lists them.
pub open spec fn comment_kinds(language: SupportedLanguage) -> Seq<Seq<char>> {
    match language {
        SupportedLanguage::Java => seq!["line_comment"@, "block_comment"@],
        SupportedLanguage::Go => seq!["comment"@],
        SupportedLanguage::Kotlin => seq!["comment"@],
        SupportedLanguage::Swift => seq!["comment"@, "multiline_comment"@],
        SupportedLanguage::Python => seq![],
        SupportedLanguage::Ts => seq![],
        SupportedLanguage::Tsx => seq![],
    }
}

/// The seven configuration names are pairwise distinct.
pub proof fn lemma_names_distinct()
    ensures
        JAVA@ != KOTLIN@, JAVA@ != GO@, JAVA@ != SWIFT@, JAVA@ != TYPESCRIPT@, JAVA@ != TSX@,
        JAVA@ != PYTHON@, KOTLIN@ != GO@, KOTLIN@ != SWIFT@, KOTLIN@ != TYPESCRIPT@,
        KOTLIN@ != TSX@, KOTLIN@ != PYTHON@, GO@ != SWIFT@, GO@ != TYPESCRIPT@, GO@ != TSX@,
        GO@ != PYTHON@, SWIFT@ != TYPESCRIPT@, SWIFT@ != TSX@, SWIFT@ != PYTHON@,
        TYPESCRIPT@ != TSX@, TYPESCRIPT@ != PYTHON@, TSX@ != PYTHON@,
{
    reveal_strlit("java");
    reveal_strlit("kt");
    reveal_strlit("go");
    reveal_strlit("swift");
    reveal_strlit("ts");
    reveal_strlit("tsx");
    reveal_strlit("py");
    assert(JAVA@ == seq!['j', 'a', 'v', 'a']);
    assert(KOTLIN@ == seq!['k', 't']);
    assert(GO@ == seq!['g', 'o']);
    assert(SWIFT@ == seq!['s', 'w', 'i', 'f', 't']);
    assert(TYPESCRIPT@ == seq!['t', 's']);
    assert(TSX@ == seq!['t', 's', 'x']);
    assert(PYTHON@ == seq!['p', 'y']);
    assert(KOTLIN@[0] != GO@[0] && KOTLIN@[0] != TYPESCRIPT@[0] && KOTLIN@[0] != PYTHON@[0]);
    assert(GO@[0] != TYPESCRIPT@[0] && GO@[0] != PYTHON@[0] && TYPESCRIPT@[0] != PYTHON@[0]);
}

/// Which language each name selects, case by case.
pub proof fn lemma_language_named_cases(name: Seq<char>)
    ensures
        language_named(name) == (if name == JAVA@ {
            Some(SupportedLanguage::Java)
        } else if name == GO@ {
            Some(SupportedLanguage::Go)
        } else if name == KOTLIN@ {
            Some(SupportedLanguage::Kotlin)
        } else if name == PYTHON@ {
            Some(SupportedLanguage::Python)
        } else if name == SWIFT@ {
            Some(SupportedLanguage::Swift)
        } else if name == TYPESCRIPT@ {
            Some(SupportedLanguage::Ts)
        } else if name == TSX@ {
            Some(SupportedLanguage::Tsx)
        } else {
            None
        }),
{
    lemma_names_distinct();
    if name == JAVA@ {
        assert(name_of(SupportedLanguage::Java) == name);
    } else if name == GO@ {
        assert(name_of(SupportedLanguage::Go) == name);
    } else if name == KOTLIN@ {
        assert(name_of(SupportedLanguage::Kotlin) == name);
    } else if name == PYTHON@ {
        assert(name_of(SupportedLanguage::Python) == name);
    } else if name == SWIFT@ {
        assert(name_of(SupportedLanguage::Swift) == name);
    } else if name == TYPESCRIPT@ {
        assert(name_of(SupportedLanguage::Ts) == name);
    } else if name == TSX@ {
        assert(name_of(SupportedLanguage::Tsx) == name);
    } else {
        assert forall|language: SupportedLanguage| #[trigger] name_of(language) != name by {
            match language {
                SupportedLanguage::Java => {},
                SupportedLanguage::Kotlin => {},
                SupportedLanguage::Go => {},
                SupportedLanguage::Swift => {},
                SupportedLanguage::Ts => {},
                SupportedLanguage::Tsx => {},
                SupportedLanguage::Python => {},
            }
        }
    }
}

/// Every supported language is selected by its own name: the name of a
/// language selects that language.
pub proof fn lemma_name_round_trip(language: SupportedLanguage)
    ensures
        language_named(name_of(language)) == Some(language),
{
    lemma_names_distinct();
}

/// A name selects a language only if it is that language's own name.
pub proof fn lemma_named_is_canonical(name: Seq<char>)
    ensures
        language_named(name) matches Some(language) ==> name == name_of(language),
{
}

/// Two accepted names give the same configuration exactly when they are the
/// same name, and exactly when they select the same language.
pub proof fn lemma_configuration_by_name(a: Seq<char>, b: Seq<char>)
    requires
        language_named(a) is Some,
        language_named(b) is Some,
    ensures
        configuration(a, language_named(a)->0) == configuration(b, language_named(b)->0)
            <==> a == b,
        language_named(a) == language_named(b) <==> a == b,
{
    lemma_names_distinct();
}

/// The default configuration name selects the default supported language.
pub proof fn lemma_default_name_selects_default_language()
    ensures
        language_named(JAVA@) == Some(SupportedLanguage::Java),
        name_of(SupportedLanguage::Java) == JAVA@,
{
    lemma_language_named_cases(JAVA@);
}

/// Every bundled grammar is one the tree-sitter runtime loads.
pub proof fn lemma_bundled_grammars_load(language: SupportedLanguage)
    ensures
        runtime_loads(grammar_abi_version(language)),
{
}

/// Python, TypeScript and TSX configurations list no comment node kinds; the
/// others list at least one.
pub proof fn lemma_comment_kinds_present(language: SupportedLanguage)
    ensures
        comment_kinds(language).len() == 0 <==> (language == SupportedLanguage::Python
            || language == SupportedLanguage::Ts || language == SupportedLanguage::Tsx),
{
}

/// The source that is compiled for the query source `source`: itself where it
/// ends in a delimiter, else `source` with a newline appended (whitespace is
/// insignificant in tree-sitter queries).
pub open spec fn query_source(source: Seq<char>) -> Seq<char> {
    if ends_in_delimiter(source) {
        source
    } else {
        source.push('\n')
    }
}

/// The source compiled for a query source is that source in full, followed by
/// at most one newline, and by none where the source already ends in a
/// delimiter: nothing of the source is dropped or changed.
pub proof fn lemma_query_source_keeps_source(source: Seq<char>)
    ensures
        query_source(source) == source || query_source(source) == source.push('\n'),
        source.is_prefix_of(query_source(source)),
        query_source(source).len() <= source.len() + 1,
        forall|i: int|
            source.len() <= i < query_source(source).len() ==> #[trigger] query_source(source)[i]
                == '\n',
        ends_in_delimiter(source) ==> query_source(source) == source,
        ends_in_delimiter(query_source(source)),
{
}

/// What a configuration holds, as mathematical values.
pub struct LanguageView {
    pub name: Seq<char>,
    pub supported_language: SupportedLanguage,
    pub comment_nodes: Seq<Seq<char>>,
}

/// The configuration selected by `name` for `language`.
pub open spec fn configuration(name: Seq<char>, language: SupportedLanguage) -> LanguageView {
    LanguageView { name, supported_language: language, comment_nodes: comment_kinds(language) }
}

/// The configuration of one supported language: its name, its bundled
/// grammar and its comment node kinds. Rewrite rules, their edges and scope
/// configurations are not part of it.
#[derive(Debug, PartialEq)]
pub struct PiranhaLanguage {
    name: String,
    supported_language: SupportedLanguage,
    grammar: Grammar,
    comment_nodes: Vec<String>,
}

impl View for PiranhaLanguage {
    type V = LanguageView;

    closed spec fn view(&self) -> LanguageView {
        LanguageView {
            name: self.name@,
            supported_language: self.supported_language,
            comment_nodes: self.comment_nodes@.map_values(|node: String| node@),
        }
    }
}

impl PiranhaLanguage {
    /// A configuration holds the grammar of its own supported language.
    #[verifier::type_invariant]
    spec fn holds_own_grammar(self) -> bool {
        self.grammar@ == self.supported_language
    }
}

/// The supported language that `name` selects, or `None` where no configuration
/// has that name.
pub fn supported_language_for(name: &str) -> (language: Option<SupportedLanguage>)
    ensures
        language == language_named(name@),
{
    proof {
        lemma_language_named_cases(name@);
    }
    let name = name.to_owned();
    if name == JAVA.to_owned() {
        Some(SupportedLanguage::Java)
    } else if name == GO.to_owned() {
        Some(SupportedLanguage::Go)
    } else if name == KOTLIN.to_owned() {
        Some(SupportedLanguage::Kotlin)
    } else if name == PYTHON.to_owned() {
        Some(SupportedLanguage::Python)
    } else if name == SWIFT.to_owned() {
        Some(SupportedLanguage::Swift)
    } else if name == TYPESCRIPT.to_owned() {
        Some(SupportedLanguage::Ts)
    } else if name == TSX.to_owned() {
        Some(SupportedLanguage::Tsx)
    } else {
        None
    }
}

/// The bundled grammar of `language`.
fn grammar_for(language: SupportedLanguage) -> (grammar: Grammar)
    ensures
        grammar@ == language,
{
    match language {
        SupportedLanguage::Java => java_grammar(language),
        SupportedLanguage::Kotlin => kotlin_grammar(language),
        SupportedLanguage::Go => go_grammar(language),
        SupportedLanguage::Swift => swift_grammar(language),
        SupportedLanguage::Python => python_grammar(language),
        SupportedLanguage::Ts => typescript_grammar(language),
        SupportedLanguage::Tsx => tsx_grammar(language),
    }
}

/// The source compiled for `source`, as `query_source` describes it.
fn delimited_query_source(source: String) -> (compiled: String)
    ensures
        compiled@ == query_source(source@),
        ends_in_delimiter(compiled@),
        compiled@ == source@ || compiled@ == source@.push('\n'),
        ends_in_delimiter(source@) ==> compiled@ == source@,
{
    let length = source.as_str().unicode_len();
    if length == 0 {
        return source;
    }
    let last = source.as_str().get_char(length - 1);
    assert(last == source@.last());
    if last == ')' || last == ']' || last == ' ' || last == '\n' || last == '\t' || last == '\r' {
        source
    } else {
        let mut compiled = source;
        compiled.append("\n");
        proof {
            reveal_strlit("\n");
            assert(compiled@ =~= source@.push('\n'));
        }
        compiled
    }
}

/// The comment node kinds of `language`, as owned strings.
fn comment_nodes_for(language: &SupportedLanguage) -> (nodes: Vec<String>)
    ensures
        nodes@.map_values(|node: String| node@) == comment_kinds(*language),
{
    let mut nodes: Vec<String> = Vec::new();
    match language {
        SupportedLanguage::Java => {
            nodes.push("line_comment".to_owned());
            nodes.push("block_comment".to_owned());
        },
        SupportedLanguage::Go | SupportedLanguage::Kotlin => {
            nodes.push("comment".to_owned());
        },
        SupportedLanguage::Swift => {
            nodes.push("comment".to_owned());
            nodes.push("multiline_comment".to_owned());
        },
        SupportedLanguage::Python | SupportedLanguage::Ts | SupportedLanguage::Tsx => {},
    }
    assert(nodes@.map_values(|node: String| node@) =~= comment_kinds(*language));
    nodes
}

impl PiranhaLanguage {
    /// The grammar handle this configuration carries.
    pub closed spec fn grammar_handle(&self) -> tree_sitter::Language {
        self.grammar.raw()
    }

    /// The configuration that `language` names. Every name that
    /// `language_named` accepts has one; other names are refused by `requires`
    /// (see `supported_language_for` to test a name first).
    pub fn from(language: &str) -> (config: Self)
        requires
            language_named(language@) is Some,
        ensures
            config@ == configuration(language@, language_named(language@)->0),
    {
        let supported = supported_language_for(language).unwrap();
        let grammar = grammar_for(supported);
        let comment_nodes = comment_nodes_for(&supported);
        PiranhaLanguage { name: language.to_owned(), supported_language: supported, grammar, comment_nodes }
    }

    /// Whether `kind` is one of this configuration's comment node kinds.
    pub fn is_comment(&self, kind: String) -> (found: bool)
        ensures
            found == self@.comment_nodes.contains(kind@),
    {
        let mut i: usize = 0;
        while i < self.comment_nodes.len()
            invariant
                i <= self.comment_nodes.len(),
                self@.comment_nodes == self.comment_nodes@.map_values(|node: String| node@),
                forall|j: int| 0 <= j < i ==> self@.comment_nodes[j] != kind@,
            decreases self.comment_nodes.len() - i,
        {
            if self.comment_nodes[i] == kind {
                assert(self@.comment_nodes[i as int] == kind@);
                return true;
            }
            i += 1;
        }
        false
    }

    /// The query compiled from `query_str` (ended by a newline where it does
    /// not end in a delimiter) over this configuration's grammar. Query
    /// sources that tree-sitter rejects are refused by `requires` (see
    /// `try_create_query`).
    pub fn create_query(&self, query_str: String) -> (query: CompiledQuery)
        requires
            query_compiles(self@.supported_language, query_source(query_str@)),
        ensures
            query@ == (self@.supported_language, query_source(query_str@)),
            query@.1 == query_str@ || query@.1 == query_str@.push('\n'),
            ends_in_delimiter(query_str@) ==> query@.1 == query_str@,
    {
        proof {
            use_type_invariant(self);
            lemma_query_source_keeps_source(query_str@);
        }
        compile_query(&self.grammar, delimited_query_source(query_str)).unwrap()
    }

    /// The query compiled from `query_str` (ended by a newline where it does
    /// not end in a delimiter) over this configuration's grammar, or
    /// tree-sitter's error where it rejects the source.
    pub fn try_create_query(&self, query_str: String) -> (query: Result<
        CompiledQuery,
        tree_sitter::QueryError,
    >)
        ensures
            query is Ok <==> query_compiles(self@.supported_language, query_source(query_str@)),
            query matches Ok(compiled) ==> compiled@ == (
                self@.supported_language,
                query_source(query_str@),
            ),
            query matches Ok(compiled) ==> (compiled@.1 == query_str@ || compiled@.1
                == query_str@.push('\n')),
            query matches Ok(compiled) ==> (ends_in_delimiter(query_str@) ==> compiled@.1
                == query_str@),
    {
        proof {
            use_type_invariant(self);
            lemma_query_source_keeps_source(query_str@);
        }
        compile_query(&self.grammar, delimited_query_source(query_str))
    }

    /// A new parser set to this configuration's grammar. Every bundled grammar
    /// loads, so this never fails.
    pub fn parser(&self) -> (parser: LanguageParser)
        ensures
            parser@ == Some(self@.supported_language),
    {
        proof {
            use_type_invariant(self);
            lemma_bundled_grammars_load(self.supported_language);
        }
        let mut parser = new_parser();
        let _loaded = load_grammar(&mut parser, &self.grammar);
        parser
    }

    /// The name that selected this configuration.
    pub fn name(&self) -> (name: &String)
        ensures
            name@ == self@.name,
    {
        &self.name
    }

    /// The supported language of this configuration.
    pub fn supported_language(&self) -> (language: &SupportedLanguage)
        ensures
            *language == self@.supported_language,
    {
        &self.supported_language
    }

    /// The grammar of this configuration: its own language's bundled grammar.
    pub fn grammar(&self) -> (grammar: &Grammar)
        ensures
            grammar@ == self@.supported_language,
            grammar.raw() == self.grammar_handle(),
    {
        proof {
            use_type_invariant(self);
        }
        &self.grammar
    }

    /// The grammar handle of this configuration.
    pub fn language(&self) -> (grammar: &tree_sitter::Language)
        ensures
            *grammar == self.grammar_handle(),
    {
        self.grammar.handle()
    }

    /// The comment node kinds of this configuration.
    pub fn comment_nodes(&self) -> (nodes: &Vec<String>)
        ensures
            nodes@.map_values(|node: String| node@) == self@.comment_nodes,
    {
        &self.comment_nodes
    }
}

impl Clone for PiranhaLanguage {
    fn clone(&self) -> (copy: Self)
        ensures
            copy@ == self@,
            copy.grammar_handle() == self.grammar_handle(),
    {
        proof {
            use_type_invariant(self);
        }
        let comment_nodes = self.comment_nodes.clone();
        assert(comment_nodes@.map_values(|node: String| node@) =~= self@.comment_nodes);
        PiranhaLanguage {
            name: self.name.clone(),
            supported_language: self.supported_language,
            grammar: self.grammar.clone(),
            comment_nodes,
        }
    }
}

impl Default for PiranhaLanguage {
    fn default() -> (config: Self)
        ensures
            config@ == configuration(JAVA@, SupportedLanguage::Java),
    {
        proof {
            lemma_default_name_selects_default_language();
        }
        let name = default_language();
        PiranhaLanguage::from(name.as_str())
    }
}

} // verus!
