use std::collections::{BTreeSet, HashSet};

use code_scan::languages::SupportedLanguage;
use code_scan::parser::CodeParser;
use code_scan::scan::{process, scan_files, FileInput, ReadOutcome};

#[test]
fn rust_hello_world_symbols() {
    let content = "fn main() { println!(\"Hello, world!\"); }";
    let report = process("main.rs".to_string(), ReadOutcome::Content(content.to_string()));
    assert!(report.error.is_none());
    assert_eq!(report.language, "Rust");
    assert!(!report.symbols.is_empty());
    assert!(report.symbols.iter().any(|s| s.name == "main"));
    let main_sym = report.symbols.iter().find(|s| s.name == "main").unwrap();
    assert_eq!(main_sym.kind, "definition");
    assert_eq!(main_sym.signature, "");
    assert_eq!(main_sym.start.row, 0);
    assert_eq!(main_sym.start.column, 3);
    assert_eq!(main_sym.end.row, 0);
    assert_eq!(main_sym.end.column, 7);
    assert_eq!(report.size_bytes, content.len() as u32);
}

#[test]
fn rust_struct_and_trait_symbols() {
    let content = "struct S;\ntrait T {}\nfn f() {}\n";
    let symbols = CodeParser::parse(content, SupportedLanguage::Rust);
    let names: Vec<&str> = symbols.iter().map(|s| s.name.as_str()).collect();
    assert!(names.contains(&"S"));
    assert!(names.contains(&"T"));
    assert!(names.contains(&"f"));
}

#[test]
fn python_function_and_class_symbols() {
    let content = "def f():\n    pass\n\nclass C:\n    pass\n";
    let symbols = CodeParser::parse(content, SupportedLanguage::Python);
    let names: Vec<&str> = symbols.iter().map(|s| s.name.as_str()).collect();
    assert!(names.contains(&"f"));
    assert!(names.contains(&"C"));
    let f_sym = symbols.iter().find(|s| s.name == "f").unwrap();
    assert_eq!(f_sym.start.row, 0);
    assert_eq!(f_sym.start.column, 4);
    assert_eq!(f_sym.end.column, 5);
}

#[test]
fn typescript_class_interface_method_symbols() {
    let content = "function baz() {}\nclass Foo {\n  doIt() {}\n}\ninterface Bar {}\n";
    let symbols = CodeParser::parse(content, SupportedLanguage::TypeScript);
    let names: Vec<&str> = symbols.iter().map(|s| s.name.as_str()).collect();
    assert!(names.contains(&"baz"));
    assert!(names.contains(&"Foo"));
    assert!(names.contains(&"doIt"));
    assert!(names.contains(&"Bar"));
}

#[test]
fn javascript_class_and_method_symbols() {
    let content = "class Foo {\n  run() {}\n}\nfunction go() {}\n";
    let symbols = CodeParser::parse(content, SupportedLanguage::JavaScript);
    let names: Vec<&str> = symbols.iter().map(|s| s.name.as_str()).collect();
    assert!(names.contains(&"Foo"));
    assert!(names.contains(&"run"));
    assert!(names.contains(&"go"));
}

#[test]
fn go_has_no_declared_pattern_set() {
    let content = "package main\n\nfunc main() {}\n";
    let report = process("main.go".to_string(), ReadOutcome::Content(content.to_string()));
    assert!(report.error.is_none());
    assert_eq!(report.language, "Go");
    assert!(report.symbols.is_empty());
}

#[test]
fn unknown_profile_yields_no_symbols_and_no_error() {
    let content = "function f() {}\n";
    let report = process("notes.xyz".to_string(), ReadOutcome::Content(content.to_string()));
    assert!(report.error.is_none());
    assert_eq!(report.language, "Unknown");
    assert!(report.symbols.is_empty());
}

#[test]
fn malformed_source_never_aborts() {
    let content = "fn ((((( {{{ unclosed";
    let report = process("broken.rs".to_string(), ReadOutcome::Content(content.to_string()));
    assert!(report.error.is_none());
    assert_eq!(report.language, "Rust");
}

#[test]
fn unreadable_file_report() {
    let report = process(
        "/nonexistent/file.rs".to_string(),
        ReadOutcome::Failure("No such file or directory (os error 2)".to_string()),
    );
    assert!(report.error.is_some());
    assert!(report.symbols.is_empty());
    assert_eq!(report.size_bytes, 0);
    assert_eq!(report.language, "unknown");
    assert_eq!(report.path, "/nonexistent/file.rs");
}

#[test]
fn size_counts_bytes_not_characters() {
    let content = "x = \"\u{e9}\"\n";
    assert_eq!(content.chars().count(), 8);
    assert_eq!(content.len(), 9);
    let report = process("a.py".to_string(), ReadOutcome::Content(content.to_string()));
    assert_eq!(report.size_bytes, 9);
}

#[test]
fn batch_fault_isolation() {
    let inputs = vec![
        FileInput {
            path: "a.py".to_string(),
            outcome: ReadOutcome::Content("def alpha():\n    pass\n".to_string()),
        },
        FileInput {
            path: "bad.rs".to_string(),
            outcome: ReadOutcome::Failure("permission denied".to_string()),
        },
        FileInput {
            path: "b.rs".to_string(),
            outcome: ReadOutcome::Content("fn beta() {}\n".to_string()),
        },
    ];
    let result = scan_files("root".to_string(), inputs, 5);
    assert_eq!(result.files_scanned, 3);
    assert_eq!(result.files.len(), 3);
    assert_eq!(result.root_dir, "root");
    assert_eq!(result.duration_ms, 5);
    assert!(result.files[1].error.is_some());
    assert!(result.files[0].error.is_none());
    assert!(result.files[2].error.is_none());
    assert!(result.files[0].symbols.iter().any(|s| s.name == "alpha"));
    assert!(result.files[2].symbols.iter().any(|s| s.name == "beta"));
}

#[test]
fn parse_is_idempotent() {
    let content = "def f():\n    pass\n\nclass C:\n    pass\n";
    let a = CodeParser::parse(content, SupportedLanguage::Python);
    let b = CodeParser::parse(content, SupportedLanguage::Python);
    assert_eq!(a.len(), b.len());
    for (x, y) in a.iter().zip(b.iter()) {
        assert_eq!(x.name, y.name);
        assert_eq!(x.kind, y.kind);
        assert!(x.start == y.start);
        assert!(x.end == y.end);
        assert_eq!(x.signature, y.signature);
    }
}

fn pair_set(result: &code_scan::models::ScanResult) -> HashSet<(String, BTreeSet<String>)> {
    result
        .files
        .iter()
        .map(|f| {
            (
                f.path.clone(),
                f.symbols.iter().map(|s| s.name.clone()).collect::<BTreeSet<String>>(),
            )
        })
        .collect()
}

#[test]
fn scan_result_order_independent() {
    let make_inputs = |reversed: bool| {
        let mut inputs = vec![
            FileInput {
                path: "a.py".to_string(),
                outcome: ReadOutcome::Content("def alpha():\n    pass\n".to_string()),
            },
            FileInput {
                path: "b.rs".to_string(),
                outcome: ReadOutcome::Content("fn beta() {}\n".to_string()),
            },
            FileInput {
                path: "c.ts".to_string(),
                outcome: ReadOutcome::Content("function gamma() {}\n".to_string()),
            },
        ];
        if reversed {
            inputs.reverse();
        }
        inputs
    };
    let forward = scan_files("root".to_string(), make_inputs(false), 1);
    let backward = scan_files("root".to_string(), make_inputs(true), 2);
    assert_eq!(pair_set(&forward), pair_set(&backward));
}
