use vstd::prelude::*;

verus! {

/// The low 32 bits of a count, as the report fields carry counts and
/// positions in `u32`.
pub open spec fn to_u32(n: nat) -> u32 {
    (n % 0x1_0000_0000) as u32
}

/// The low 32 bits of a count.
pub fn low_u32(n: usize) -> (r: u32)
    ensures
        r == to_u32(n as nat),
{
    let low: u64 = (n as u64) % 0x1_0000_0000;
    proof {
        assert(low as nat == (n as nat) % 0x1_0000_0000);
    }
    low as u32
}

/// A zero-based (row, column) position in a source file.
#[derive(Debug, Clone, Copy, PartialEq, Eq, Structural)]
pub struct SourceLocation {
    pub row: u32,
    pub column: u32,
}

/// One extracted declaration site: its name, a kind tag, its start and end
/// positions, and a signature (left empty by this pipeline).
#[derive(Debug, Clone)]
pub struct CodeSymbol {
    pub name: String,
    pub kind: String,
    pub start: SourceLocation,
    pub end: SourceLocation,
    pub signature: String,
}

/// The mathematical value of a `CodeSymbol`.
#[verifier::ext_equal]
pub struct SymbolModel {
    pub name: Seq<char>,
    pub kind: Seq<char>,
    pub start: SourceLocation,
    pub end: SourceLocation,
    pub signature: Seq<char>,
}

impl View for CodeSymbol {
    type V = SymbolModel;

    open spec fn view(&self) -> SymbolModel {
        SymbolModel {
            name: self.name@,
            kind: self.kind@,
            start: self.start,
            end: self.end,
            signature: self.signature@,
        }
    }
}

impl DeepView for CodeSymbol {
    type V = SymbolModel;

    open spec fn deep_view(&self) -> SymbolModel {
        self.view()
    }
}

/// The complete per-file outcome of the pipeline: exactly one exists per
/// scanned file, whether or not the file could be read or parsed.
#[derive(Debug, Clone)]
pub struct FileReport {
    pub path: String,
    pub language: String,
    pub size_bytes: u32,
    pub symbols: Vec<CodeSymbol>,
    pub error: Option<String>,
}

/// The mathematical value of a `FileReport`.
#[verifier::ext_equal]
pub struct ReportModel {
    pub path: Seq<char>,
    pub language: Seq<char>,
    pub size_bytes: u32,
    pub symbols: Seq<SymbolModel>,
    pub error: Option<Seq<char>>,
}

impl View for FileReport {
    type V = ReportModel;

    open spec fn view(&self) -> ReportModel {
        ReportModel {
            path: self.path@,
            language: self.language@,
            size_bytes: self.size_bytes,
            symbols: self.symbols.deep_view(),
            error: self.error.deep_view(),
        }
    }
}

impl DeepView for FileReport {
    type V = ReportModel;

    open spec fn deep_view(&self) -> ReportModel {
        self.view()
    }
}

/// The aggregate outcome of one scan: one report per discovered file, the
/// file count, and the elapsed wall-clock time in milliseconds.
#[derive(Debug)]
pub struct ScanResult {
    pub root_dir: String,
    pub duration_ms: u64,
    pub files_scanned: u32,
    pub files: Vec<FileReport>,
}

/// The mathematical value of a `ScanResult`.
#[verifier::ext_equal]
pub struct ScanModel {
    pub root_dir: Seq<char>,
    pub duration_ms: u64,
    pub files_scanned: u32,
    pub files: Seq<ReportModel>,
}

impl View for ScanResult {
    type V = ScanModel;

    open spec fn view(&self) -> ScanModel {
        ScanModel {
            root_dir: self.root_dir@,
            duration_ms: self.duration_ms,
            files_scanned: self.files_scanned,
            files: self.files.deep_view(),
        }
    }
}

} // verus!
