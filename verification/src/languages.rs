use vstd::prelude::*;

verus! {

/// The closed set of languages the scanner recognizes, plus `Unknown` for any
/// path whose extension is not in the recognized set.
#[derive(Debug, Clone, Copy, PartialEq, Eq, Structural)]
pub enum SupportedLanguage {
    TypeScript,
    TSX,
    JavaScript,
    Python,
    Rust,
    Go,
    Unknown,
}

/// True when `s` ends with `suffix`.
pub open spec fn seq_ends_with(s: Seq<char>, suffix: Seq<char>) -> bool {
    s.len() >= suffix.len() && s.skip(s.len() - suffix.len()) == suffix
}

/// Character-wise suffix test on string slices.
fn str_ends_with(s: &str, suffix: &str) -> (r: bool)
    ensures
        r == seq_ends_with(s@, suffix@),
{
    let n: usize = s.unicode_len();
    let m: usize = suffix.unicode_len();
    if m > n {
        return false;
    }
    let mut i: usize = 0;
    while i < m
        invariant
            i <= m <= n,
            n == s@.len(),
            m == suffix@.len(),
            forall|j: int| 0 <= j < i ==> s@[n - m + j] == suffix@[j],
        decreases m - i,
    {
        if s.get_char(n - m + i) != suffix.get_char(i) {
            assert(!seq_ends_with(s@, suffix@)) by {
                assert(s@.skip(n - m)[i as int] == s@[n - m + i]);
            }
            return false;
        }
        i += 1;
    }
    assert(s@.skip(n - m) =~= suffix@);
    true
}

/// The language a path maps to: decided by its extension alone, with
/// `Unknown` for every extension outside the recognized set.
pub open spec fn lang_of_path(path: Seq<char>) -> SupportedLanguage {
    if seq_ends_with(path, ".ts"@) {
        SupportedLanguage::TypeScript
    } else if seq_ends_with(path, ".tsx"@) {
        SupportedLanguage::TSX
    } else if seq_ends_with(path, ".js"@) || seq_ends_with(path, ".mjs"@) {
        SupportedLanguage::JavaScript
    } else if seq_ends_with(path, ".py"@) {
        SupportedLanguage::Python
    } else if seq_ends_with(path, ".rs"@) {
        SupportedLanguage::Rust
    } else if seq_ends_with(path, ".go"@) {
        SupportedLanguage::Go
    } else {
        SupportedLanguage::Unknown
    }
}

impl SupportedLanguage {
    /// Maps a file path to its language profile. Total: every path yields
    /// exactly one profile, `Unknown` when no recognized extension matches.
    pub fn from_path(path: &str) -> (r: Self)
        ensures
            r == lang_of_path(path@),
    {
        if str_ends_with(path, ".ts") {
            return Self::TypeScript;
        }
        if str_ends_with(path, ".tsx") {
            return Self::TSX;
        }
        if str_ends_with(path, ".js") || str_ends_with(path, ".mjs") {
            return Self::JavaScript;
        }
        if str_ends_with(path, ".py") {
            return Self::Python;
        }
        if str_ends_with(path, ".rs") {
            return Self::Rust;
        }
        if str_ends_with(path, ".go") {
            return Self::Go;
        }
        Self::Unknown
    }

    /// The name of the profile, as the language tag of a file report.
    pub open spec fn name_spec(self) -> Seq<char> {
        match self {
            Self::TypeScript => "TypeScript"@,
            Self::TSX => "TSX"@,
            Self::JavaScript => "JavaScript"@,
            Self::Python => "Python"@,
            Self::Rust => "Rust"@,
            Self::Go => "Go"@,
            Self::Unknown => "Unknown"@,
        }
    }

    /// The printable name of the profile.
    pub fn name(&self) -> (r: &str)
        ensures
            r@ == self.name_spec(),
    {
        match self {
            Self::TypeScript => "TypeScript",
            Self::TSX => "TSX",
            Self::JavaScript => "JavaScript",
            Self::Python => "Python",
            Self::Rust => "Rust",
            Self::Go => "Go",
            Self::Unknown => "Unknown",
        }
    }

    /// A distinct numeric tag per profile; the grammar handed to the syntax
    /// engine is a function of this tag.
    pub open spec fn code(self) -> int {
        match self {
            Self::TypeScript => 0,
            Self::TSX => 1,
            Self::JavaScript => 2,
            Self::Python => 3,
            Self::Rust => 4,
            Self::Go => 5,
            Self::Unknown => 6,
        }
    }

    /// The declaration pattern set for this profile, authored against this
    /// language's own grammar vocabulary; empty when the profile has no
    /// declared pattern set.
    pub open spec fn query_spec(self) -> Seq<char> {
        match self {
            Self::Python => PYTHON_QUERY@,
            Self::Rust => RUST_QUERY@,
            Self::TypeScript | Self::TSX => TYPESCRIPT_QUERY@,
            Self::JavaScript => JAVASCRIPT_QUERY@,
            Self::Go | Self::Unknown => ""@,
        }
    }

    /// Returns the declaration pattern set for this profile, empty when none
    /// is declared.
    pub fn get_query(&self) -> (r: &str)
        ensures
            r@ == self.query_spec(),
    {
        match self {
            Self::Python => PYTHON_QUERY,
            Self::Rust => RUST_QUERY,
            Self::TypeScript | Self::TSX => TYPESCRIPT_QUERY,
            Self::JavaScript => JAVASCRIPT_QUERY,
            Self::Go | Self::Unknown => "",
        }
    }

    /// The tag of the profile whose grammar this profile parses with:
    /// every recognized profile uses its own, and `Unknown` falls back to
    /// the JavaScript grammar as a best-effort policy.
    pub open spec fn effective_code(self) -> int {
        match self {
            Self::Unknown => Self::JavaScript.code(),
            _ => self.code(),
        }
    }

    /// Returns the compiled grammar for this profile; `Unknown` falls back to
    /// the JavaScript grammar as a best-effort policy.
    pub fn get_grammar(&self) -> (r: tree_sitter::Language)
        ensures
            r == grammar_of(self.effective_code()),
    {
        match self {
            Self::TypeScript => grammar_typescript(),
            Self::TSX => grammar_tsx(),
            Self::JavaScript => grammar_javascript(),
            Self::Python => grammar_python(),
            Self::Rust => grammar_rust(),
            Self::Go => grammar_go(),
            Self::Unknown => grammar_javascript(),
        }
    }
}

/// Law: the `Unknown` profile parses with the very grammar the JavaScript
/// profile parses with — the best-effort fallback is a stated policy, not an
/// accident of one body.
pub proof fn lemma_unknown_grammar_is_javascript()
    ensures
        grammar_of(SupportedLanguage::Unknown.effective_code()) == grammar_of(
            SupportedLanguage::JavaScript.effective_code(),
        ),
{
}

pub const PYTHON_QUERY: &'static str = r#"
                (function_definition name: (identifier) @name)
                (class_definition name: (identifier) @name)
            "#;

pub const RUST_QUERY: &'static str = r#"
                (function_item name: (identifier) @name)
                (struct_item name: (type_identifier) @name)
                (trait_item name: (type_identifier) @name)
            "#;

pub const TYPESCRIPT_QUERY: &'static str = r#"
                (function_declaration name: (identifier) @name)
                (class_declaration name: (type_identifier) @name)
                (interface_declaration name: (type_identifier) @name)
                (method_definition name: (property_identifier) @name)
            "#;

pub const JAVASCRIPT_QUERY: &'static str = r#"
                (function_declaration name: (identifier) @name)
                (class_declaration name: (identifier) @name)
                (method_definition name: (property_identifier) @name)
            "#;

#[verifier::external_type_specification]
#[verifier::external_body]
pub struct ExLanguage(tree_sitter::Language);

/// The one grammar each profile tag loads: the grammar crates expose fixed
/// constants, so the grammar is a function of the tag alone, in every
/// process and on every machine.
pub uninterp spec fn grammar_of(code: int) -> tree_sitter::Language;

/// Relies on tree_sitter_typescript::LANGUAGE_TYPESCRIPT: the TypeScript grammar.
#[verifier::external_body]
fn grammar_typescript() -> (r: tree_sitter::Language)
    ensures
        r == grammar_of(SupportedLanguage::TypeScript.code()),
{
    tree_sitter_typescript::LANGUAGE_TYPESCRIPT.into()
}

/// Relies on tree_sitter_typescript::LANGUAGE_TSX: the TSX grammar.
#[verifier::external_body]
fn grammar_tsx() -> (r: tree_sitter::Language)
    ensures
        r == grammar_of(SupportedLanguage::TSX.code()),
{
    tree_sitter_typescript::LANGUAGE_TSX.into()
}

/// Relies on tree_sitter_javascript::LANGUAGE: the JavaScript grammar.
#[verifier::external_body]
fn grammar_javascript() -> (r: tree_sitter::Language)
    ensures
        r == grammar_of(SupportedLanguage::JavaScript.code()),
{
    tree_sitter_javascript::LANGUAGE.into()
}

/// Relies on tree_sitter_python::LANGUAGE: the Python grammar.
#[verifier::external_body]
fn grammar_python() -> (r: tree_sitter::Language)
    ensures
        r == grammar_of(SupportedLanguage::Python.code()),
{
    tree_sitter_python::LANGUAGE.into()
}

/// Relies on tree_sitter_rust::LANGUAGE: the Rust grammar.
#[verifier::external_body]
fn grammar_rust() -> (r: tree_sitter::Language)
    ensures
        r == grammar_of(SupportedLanguage::Rust.code()),
{
    tree_sitter_rust::LANGUAGE.into()
}

/// Relies on tree_sitter_go::LANGUAGE: the Go grammar.
#[verifier::external_body]
fn grammar_go() -> (r: tree_sitter::Language)
    ensures
        r == grammar_of(SupportedLanguage::Go.code()),
{
    tree_sitter_go::LANGUAGE.into()
}

} // verus!
