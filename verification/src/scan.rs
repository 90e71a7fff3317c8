use crate::languages::SupportedLanguage;
use crate::models::{
    low_u32, to_u32, CodeSymbol, FileReport, ReportModel, ScanModel, ScanResult, SymbolModel,
};
use crate::parser::{parse_model, CodeParser};
use vstd::prelude::*;

verus! {

/// What reading one file produced: the file's text, or the message of the
/// read failure. The read itself happens at the host boundary; everything
/// after it is decided here.
pub enum ReadOutcome {
    Content(String),
    Failure(String),
}

/// The mathematical value of a `ReadOutcome`.
#[verifier::ext_equal]
pub enum OutcomeModel {
    Content(Seq<char>),
    Failure(Seq<char>),
}

impl View for ReadOutcome {
    type V = OutcomeModel;

    open spec fn view(&self) -> OutcomeModel {
        match self {
            ReadOutcome::Content(t) => OutcomeModel::Content(t@),
            ReadOutcome::Failure(e) => OutcomeModel::Failure(e@),
        }
    }
}

impl DeepView for ReadOutcome {
    type V = OutcomeModel;

    open spec fn deep_view(&self) -> OutcomeModel {
        self.view()
    }
}

/// One file handed to a scan: its path and what reading it produced.
pub struct FileInput {
    pub path: String,
    pub outcome: ReadOutcome,
}

/// The mathematical value of a `FileInput`.
#[verifier::ext_equal]
pub struct InputModel {
    pub path: Seq<char>,
    pub outcome: OutcomeModel,
}

impl View for FileInput {
    type V = InputModel;

    open spec fn view(&self) -> InputModel {
        InputModel { path: self.path@, outcome: self.outcome@ }
    }
}

impl DeepView for FileInput {
    type V = InputModel;

    open spec fn deep_view(&self) -> InputModel {
        self.view()
    }
}

/// The byte length a text's report carries: the length of the text's UTF-8
/// encoding, truncated to `u32`.
pub open spec fn byte_size(t: Seq<char>) -> u32 {
    to_u32((vstd::utf8::encode_utf8(t).len() as usize) as nat)
}

/// The report `process` returns for one path and one read outcome. A failed
/// read yields the `unknown` tag, zero size, no symbols and the error; a
/// read text yields the resolved profile's tag, the text's byte length, the
/// extracted symbols and no error.
pub open spec fn report_model(path: Seq<char>, outcome: OutcomeModel) -> ReportModel {
    match outcome {
        OutcomeModel::Failure(e) => ReportModel {
            path: path,
            language: "unknown"@,
            size_bytes: 0,
            symbols: Seq::<SymbolModel>::empty(),
            error: Some(e),
        },
        OutcomeModel::Content(t) => ReportModel {
            path: path,
            language: crate::languages::lang_of_path(path).name_spec(),
            size_bytes: byte_size(t),
            symbols: parse_model(crate::languages::lang_of_path(path), t),
            error: None,
        },
    }
}

/// Produces the report of one file, total and non-aborting: every path and
/// every read outcome yield exactly one report, and only a failed read
/// populates the error field.
pub fn process(path: String, outcome: ReadOutcome) -> (r: FileReport)
    ensures
        r@ == report_model(path@, outcome@),
{
    match outcome {
        ReadOutcome::Failure(msg) => {
            let ghost m = msg@;
            let r = FileReport {
                path,
                language: "unknown".to_owned(),
                size_bytes: 0,
                symbols: Vec::<CodeSymbol>::new(),
                error: Some(msg),
            };
            proof {
                assert(r@ =~~= report_model(r.path@, OutcomeModel::Failure(m)));
            }
            r
        },
        ReadOutcome::Content(text) => {
            let lang = SupportedLanguage::from_path(path.as_str());
            let symbols = CodeParser::parse(text.as_str(), lang);
            let n: usize = text.as_str().len();
            let size: u32 = low_u32(n);
            let r = FileReport {
                path,
                language: lang.name().to_owned(),
                size_bytes: size,
                symbols,
                error: None,
            };
            proof {
                let m = report_model(r.path@, OutcomeModel::Content(text@));
                assert(r@.size_bytes == m.size_bytes);
                assert(r@.symbols == m.symbols);
                assert(r@ =~~= m);
            }
            r
        },
    }
}

/// The scan result for a root path, a sequence of file inputs and an elapsed
/// time: one report per input, in input order, with the input count.
pub open spec fn scan_model(root: Seq<char>, inputs: Seq<InputModel>, duration_ms: u64) -> ScanModel {
    ScanModel {
        root_dir: root,
        duration_ms: duration_ms,
        files_scanned: to_u32(inputs.len()),
        files: inputs.map_values(|i: InputModel| report_model(i.path, i.outcome)),
    }
}

/// Processes every input independently and aggregates the reports. No
/// input's processing reads or writes any state shared with another input's,
/// and no failure among them aborts the scan.
pub fn scan_files(root_path: String, inputs: Vec<FileInput>, duration_ms: u64) -> (r: ScanResult)
    ensures
        r@ == scan_model(root_path@, inputs.deep_view(), duration_ms),
{
    let ghost all = inputs.deep_view();
    let mut rest = inputs;
    let mut files: Vec<FileReport> = Vec::new();
    while rest.len() > 0
        invariant
            files.deep_view().len() + rest.deep_view().len() == all.len(),
            rest.deep_view() =~= all.skip(files.deep_view().len() as int),
            files.deep_view() =~= all.take(files.deep_view().len() as int).map_values(
                |i: InputModel| report_model(i.path, i.outcome),
            ),
        decreases rest.len(),
    {
        let ghost k = files.deep_view().len() as int;
        let ghost prev_rest = rest.deep_view();
        let ghost prev_files = files.deep_view();
        let f = rest.remove(0);
        proof {
            assert(f.deep_view() == prev_rest[0]);
            assert(prev_rest[0] == all.skip(k)[0]);
            assert(all.skip(k)[0] == all[k]);
            assert(rest.deep_view() =~= all.skip(k + 1)) by {
                assert forall|i: int| 0 <= i < rest.deep_view().len() implies rest.deep_view()[i]
                    == all.skip(k + 1)[i] by {
                    assert(rest.deep_view()[i] == prev_rest[i + 1]);
                    assert(prev_rest[i + 1] == all.skip(k)[i + 1]);
                    assert(all.skip(k)[i + 1] == all[k + 1 + i]);
                    assert(all.skip(k + 1)[i] == all[k + 1 + i]);
                }
            }
        }
        let rep = process(f.path, f.outcome);
        let ghost repv = rep.deep_view();
        files.push(rep);
        proof {
            assert(repv == report_model(all[k].path, all[k].outcome));
            assert(files.deep_view() =~= all.take(k + 1).map_values(
                |i: InputModel| report_model(i.path, i.outcome),
            )) by {
                assert(files.deep_view() =~= prev_files.push(repv));
                assert forall|i: int| 0 <= i <= k implies all.take(k + 1).map_values(
                    |i: InputModel| report_model(i.path, i.outcome),
                )[i] == prev_files.push(repv)[i] by {
                    assert(all.take(k + 1)[i] == all[i]);
                }
            }
        }
    }
    proof {
        assert(all.take(all.len() as int) =~= all);
    }
    let n: usize = files.len();
    let scanned: u32 = low_u32(n);
    let r = ScanResult { root_dir: root_path, duration_ms, files_scanned: scanned, files };
    proof {
        assert(r@.files == scan_model(r.root_dir@, all, duration_ms).files);
        assert(r@ =~~= scan_model(r.root_dir@, all, duration_ms));
    }
    r
}

/// Builds the aggregate record directly from already-produced reports; the
/// file count is the report count.
pub fn build_scan_result(root_path: String, files: Vec<FileReport>, duration_ms: u64) -> (r:
    ScanResult)
    ensures
        r@.root_dir == root_path@,
        r@.duration_ms == duration_ms,
        r@.files == files.deep_view(),
        r@.files_scanned == to_u32(files.deep_view().len()),
{
    let n: usize = files.len();
    let scanned: u32 = low_u32(n);
    ScanResult { root_dir: root_path, duration_ms, files_scanned: scanned, files }
}

/// Law: one unreadable file never affects any other file's report. A scan
/// whose input at index `k` is a failed read still yields exactly one report
/// per input; the report at `k` carries the error; and every other report is
/// exactly the report of its own input, stated without reference to the
/// failing one.
pub proof fn lemma_scan_fault_isolation(
    root: Seq<char>,
    inputs: Seq<InputModel>,
    duration_ms: u64,
    k: int,
)
    requires
        0 <= k < inputs.len(),
        inputs[k].outcome is Failure,
    ensures
        scan_model(root, inputs, duration_ms).files.len() == inputs.len(),
        scan_model(root, inputs, duration_ms).files_scanned == to_u32(inputs.len()),
        inputs.len() < 0x1_0000_0000 ==> scan_model(root, inputs, duration_ms).files_scanned
            == inputs.len(),
        scan_model(root, inputs, duration_ms).files[k].error is Some,
        forall|j: int|
            0 <= j < inputs.len() && j != k ==> scan_model(root, inputs, duration_ms).files[j]
                == report_model(inputs[j].path, inputs[j].outcome),
{
}

/// Law: processing is idempotent. Any two reports that `process` can return
/// for the same path and the same unchanged read outcome are equal, whatever
/// the order or thread the calls ran in.
pub proof fn lemma_process_idempotent(
    r1: ReportModel,
    r2: ReportModel,
    path: Seq<char>,
    outcome: OutcomeModel,
)
    requires
        r1 == report_model(path, outcome),
        r2 == report_model(path, outcome),
    ensures
        r1 == r2,
{
}

/// Law: what the engine captures flows into the report unchanged. When a
/// file's profile declares a pattern set and the engine yields captures for
/// the file's text, the file's report carries no error, the profile's name
/// as its tag, and exactly one symbol per capture, each the record of its
/// own capture. In particular, a capture named `main` in a Rust file's text
/// becomes a symbol named `main` in an error-free report tagged `Rust`.
pub proof fn lemma_symbols_follow_captures(
    path: Seq<char>,
    content: Seq<char>,
    caps: Seq<crate::parser::CaptureModel>,
)
    requires
        crate::languages::lang_of_path(path).query_spec().len() != 0,
        crate::parser::captures_of(
            crate::languages::lang_of_path(path).effective_code(),
            content,
            crate::languages::lang_of_path(path).query_spec(),
        ) == Some(caps),
    ensures
        report_model(path, OutcomeModel::Content(content)).error is None,
        report_model(path, OutcomeModel::Content(content)).language == crate::languages::lang_of_path(
            path,
        ).name_spec(),
        report_model(path, OutcomeModel::Content(content)).symbols.len() == caps.len(),
        forall|i: int|
            0 <= i < caps.len() ==> report_model(path, OutcomeModel::Content(content)).symbols[i]
                == crate::parser::symbol_of(caps[i]),
{
}

/// The (path, set of symbol names) pair of one report.
pub open spec fn report_pair(r: ReportModel) -> (Seq<char>, Set<Seq<char>>) {
    (r.path, r.symbols.map_values(|s: SymbolModel| s.name).to_set())
}

/// The set of (path, symbol-name-set) pairs of one scan result.
pub open spec fn scan_pairs(m: ScanModel) -> Set<(Seq<char>, Set<Seq<char>>)> {
    m.files.map_values(|r: ReportModel| report_pair(r)).to_set()
}

/// Mapping a function over two sequences with the same multiset of elements
/// yields the same set of results.
proof fn lemma_map_to_set_permutation<A, B>(a: Seq<A>, b: Seq<A>, f: spec_fn(A) -> B)
    requires
        a.to_multiset() == b.to_multiset(),
    ensures
        a.map_values(f).to_set() == b.map_values(f).to_set(),
{
    broadcast use vstd::seq_lib::group_to_multiset_ensures;

    assert forall|y: B| a.map_values(f).to_set().contains(y)
        implies b.map_values(f).to_set().contains(y) by {
        let i = choose|i: int| 0 <= i < a.map_values(f).len() && a.map_values(f)[i] == y;
        assert(a.contains(a[i]));
        assert(b.to_multiset().count(a[i]) > 0);
        let j = choose|j: int| 0 <= j < b.len() && b[j] == a[i];
        assert(b.map_values(f)[j] == y);
    }
    assert forall|y: B| b.map_values(f).to_set().contains(y)
        implies a.map_values(f).to_set().contains(y) by {
        let i = choose|i: int| 0 <= i < b.map_values(f).len() && b.map_values(f)[i] == y;
        assert(b.contains(b[i]));
        assert(a.to_multiset().count(b[i]) > 0);
        let j = choose|j: int| 0 <= j < a.len() && a[j] == b[i];
        assert(a.map_values(f)[j] == y);
    }
    assert(a.map_values(f).to_set() =~= b.map_values(f).to_set());
}

/// Law: the set of (path, symbol-name-set) pairs of a scan does not depend
/// on the order in which the files were discovered or processed, nor on the
/// elapsed time: any two scans over the same multiset of inputs yield the
/// same pair set.
pub proof fn lemma_scan_order_independent(
    root: Seq<char>,
    a: Seq<InputModel>,
    b: Seq<InputModel>,
    d1: u64,
    d2: u64,
)
    requires
        a.to_multiset() == b.to_multiset(),
    ensures
        scan_pairs(scan_model(root, a, d1)) == scan_pairs(scan_model(root, b, d2)),
{
    let g = |i: InputModel| report_pair(report_model(i.path, i.outcome));
    lemma_map_to_set_permutation(a, b, g);
    assert(scan_model(root, a, d1).files.map_values(|r: ReportModel| report_pair(r)) =~= a.map_values(g));
    assert(scan_model(root, b, d2).files.map_values(|r: ReportModel| report_pair(r)) =~= b.map_values(g));
}

} // verus!
