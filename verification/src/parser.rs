use crate::languages::{grammar_of, SupportedLanguage};
use crate::models::{low_u32, to_u32, CodeSymbol, SourceLocation, SymbolModel};
use streaming_iterator::StreamingIterator;
use vstd::prelude::*;

verus! {

/// One raw query capture as the syntax engine hands it back: the captured
/// node's decoded text (`None` when the node's bytes are not valid UTF-8)
/// and its zero-based start and end positions.
pub struct RawCapture {
    pub name: Option<String>,
    pub start_row: usize,
    pub start_col: usize,
    pub end_row: usize,
    pub end_col: usize,
}

/// The mathematical value of a `RawCapture`.
#[verifier::ext_equal]
pub struct CaptureModel {
    pub name: Option<Seq<char>>,
    pub start_row: usize,
    pub start_col: usize,
    pub end_row: usize,
    pub end_col: usize,
}

/// True when the capture's start position is at or before its end position,
/// in row-major order: a capture covers a span, never an inverted one.
pub open spec fn span_ordered(c: CaptureModel) -> bool {
    c.start_row < c.end_row || (c.start_row == c.end_row && c.start_col <= c.end_col)
}

/// True when every capture of an engine outcome covers an ordered span.
pub open spec fn captures_span_ordered(r: Option<Seq<CaptureModel>>) -> bool {
    match r {
        Some(s) => forall|i: int| 0 <= i < s.len() ==> span_ordered(#[trigger] s[i]),
        None => true,
    }
}

impl View for RawCapture {
    type V = CaptureModel;

    open spec fn view(&self) -> CaptureModel {
        CaptureModel {
            name: self.name.deep_view(),
            start_row: self.start_row,
            start_col: self.start_col,
            end_row: self.end_row,
            end_col: self.end_col,
        }
    }
}

impl DeepView for RawCapture {
    type V = CaptureModel;

    open spec fn deep_view(&self) -> CaptureModel {
        self.view()
    }
}

/// What the syntax engine returns for the grammar of a given tag, a source
/// text and a query text: `None` when the grammar cannot be installed, the
/// text yields no tree, or the query does not compile; otherwise every named
/// capture of every match, in the order the engine discovers them. Parsing
/// and matching are deterministic, so this is a function of the three
/// arguments alone.
pub uninterp spec fn captures_of(grammar_code: int, content: Seq<char>, query: Seq<char>) -> Option<
    Seq<CaptureModel>,
>;

#[verifier::external_type_specification]
#[verifier::external_body]
pub struct ExQueryCapture<'a>(tree_sitter::QueryCapture<'a>);

/// Relies on tree_sitter's `Node::start_position`, `Node::end_position` and
/// `Node::byte_range`: the capture's zero-based (row, column) start and end
/// positions, and its source text decoded from the content bytes by the
/// node's byte span. The text is `None` when the span lies outside the bytes
/// or is not valid UTF-8; no input can make the body panic.
#[verifier::external_body]
fn capture_fields<'t>(c: &tree_sitter::QueryCapture<'t>, bytes: &[u8]) -> RawCapture {
    let (s, e) = (c.node.start_position(), c.node.end_position());
    let text = bytes.get(c.node.byte_range()).and_then(|b| core::str::from_utf8(b).ok());
    RawCapture {
        name: text.map(|t| t.to_string()),
        start_row: s.row,
        start_col: s.column,
        end_row: e.row,
        end_col: e.column,
    }
}

/// Relies on tree_sitter's `Parser::set_language`, `Parser::parse`,
/// `Query::new` and `QueryCursor::matches`: builds the syntax tree for the
/// content under the grammar handed in, runs the compiled query over it,
/// and collects every capture in discovery order. All of these are
/// deterministic in the grammar, the source text and the query text, so for
/// whichever tag the grammar belongs to, the result is `captures_of` applied
/// to that tag and the two texts; and every capture's node covers an ordered
/// span. A query text that fails to compile is absorbed into the `None`
/// outcome without a diagnostic; the caller degrades it to an empty symbol
/// list.
#[verifier::external_body]
fn run_query(grammar: &tree_sitter::Language, content: &str, query_src: &str) -> (r: Option<
    Vec<RawCapture>,
>)
    ensures
        forall|c: int|
            *grammar == #[trigger] grammar_of(c) ==> r.deep_view() == captures_of(
                c,
                content@,
                query_src@,
            ),
        captures_span_ordered(r.deep_view()),
{
    let mut parser = tree_sitter::Parser::new();
    parser.set_language(grammar).ok()?;
    let tree = parser.parse(content, None)?;
    let query = tree_sitter::Query::new(grammar, query_src).ok()?;
    let mut cursor = tree_sitter::QueryCursor::new();
    let mut ms = cursor.matches(&query, tree.root_node(), content.as_bytes());
    let mut out: Vec<RawCapture> = Vec::new();
    loop {
        let m = match ms.next() { None => break, Some(m) => m };
        m.captures().iter().for_each(|c| out.push(capture_fields(c, content.as_bytes())));
    }
    Some(out)
}

/// The symbol record one capture turns into: the capture's text as the name
/// (a fixed placeholder when the text was not valid UTF-8), the generic
/// `definition` kind tag, the capture's positions truncated to the report's
/// 32-bit fields, and an empty signature.
pub open spec fn symbol_of(c: CaptureModel) -> SymbolModel {
    SymbolModel {
        name: match c.name {
            Some(n) => n,
            None => "invalid_utf8"@,
        },
        kind: "definition"@,
        start: SourceLocation { row: to_u32(c.start_row as nat), column: to_u32(c.start_col as nat) },
        end: SourceLocation { row: to_u32(c.end_row as nat), column: to_u32(c.end_col as nat) },
        signature: ""@,
    }
}

/// Law: a symbol's span is ordered like its capture's span whenever the
/// capture's positions fit the report's 32-bit fields: the start stands at
/// or before the end, in row-major order.
pub proof fn lemma_symbol_span_ordered(c: CaptureModel)
    requires
        span_ordered(c),
        c.end_row < 0x1_0000_0000,
        c.start_row == c.end_row ==> c.end_col < 0x1_0000_0000,
    ensures
        symbol_of(c).start.row < symbol_of(c).end.row || (symbol_of(c).start.row == symbol_of(
            c,
        ).end.row && symbol_of(c).start.column <= symbol_of(c).end.column),
{
}

/// The symbol sequence `CodeParser::parse` returns for a profile and a
/// source text: empty when the profile declares no pattern set or the
/// engine yields no captures, otherwise one symbol per capture, in capture
/// order.
pub open spec fn parse_model(lang: SupportedLanguage, content: Seq<char>) -> Seq<SymbolModel> {
    if lang.query_spec().len() == 0 {
        Seq::<SymbolModel>::empty()
    } else {
        match captures_of(lang.effective_code(), content, lang.query_spec()) {
            Some(caps) => caps.map_values(|c: CaptureModel| symbol_of(c)),
            None => Seq::<SymbolModel>::empty(),
        }
    }
}

/// Maps each raw capture to its symbol record, in order.
fn symbols_of_captures(caps: &Vec<RawCapture>) -> (r: Vec<CodeSymbol>)
    ensures
        r.deep_view() == caps.deep_view().map_values(|c: CaptureModel| symbol_of(c)),
{
    let mut r: Vec<CodeSymbol> = Vec::new();
    let mut i: usize = 0;
    while i < caps.len()
        invariant
            i <= caps.len(),
            r.deep_view() =~= caps.deep_view().take(i as int).map_values(
                |c: CaptureModel| symbol_of(c),
            ),
        decreases caps.len() - i,
    {
        let ghost prev = r.deep_view();
        let c = &caps[i];
        let name: String = match &c.name {
            Some(n) => n.clone(),
            None => "invalid_utf8".to_owned(),
        };
        let sym = CodeSymbol {
            name,
            kind: "definition".to_owned(),
            start: SourceLocation { row: low_u32(c.start_row), column: low_u32(c.start_col) },
            end: SourceLocation { row: low_u32(c.end_row), column: low_u32(c.end_col) },
            signature: "".to_owned(),
        };
        let ghost symv = sym.deep_view();
        r.push(sym);
        proof {
            let cm = caps.deep_view()[i as int];
            assert(symv =~~= symbol_of(cm));
            assert(r.deep_view() =~~= prev.push(symv));
            assert(caps.deep_view().take(i + 1).map_values(|x: CaptureModel| symbol_of(x))
                =~~= prev.push(symv));
        }
        i += 1;
    }
    proof {
        assert(caps.deep_view().take(caps.len() as int) =~= caps.deep_view());
    }
    r
}

/// The language-agnostic traversal: parse, match, extract.
pub struct CodeParser;

impl CodeParser {
    /// Extracts the declaration sites of `content` under the given language
    /// profile. Returns the empty sequence when the profile declares no
    /// pattern set, or when the engine cannot install the grammar, produce a
    /// tree, or compile the query; none of those ever aborts the caller.
    pub fn parse(content: &str, lang: SupportedLanguage) -> (r: Vec<CodeSymbol>)
        ensures
            r.deep_view() == parse_model(lang, content@),
    {
        let query = lang.get_query();
        if query.is_empty() {
            let r: Vec<CodeSymbol> = Vec::new();
            proof {
                assert(r.deep_view() =~= parse_model(lang, content@));
            }
            return r;
        }
        let grammar = lang.get_grammar();
        let found = run_query(&grammar, content, query);
        proof {
            assert(found.deep_view() == captures_of(lang.effective_code(), content@, query@));
        }
        match found {
            Some(caps) => {
                let r = symbols_of_captures(&caps);
                proof {
                    assert(r.deep_view() =~= parse_model(lang, content@));
                }
                r
            },
            None => {
                let r: Vec<CodeSymbol> = Vec::new();
                proof {
                    assert(r.deep_view() =~= parse_model(lang, content@));
                }
                r
            },
        }
    }
}

} // verus!
