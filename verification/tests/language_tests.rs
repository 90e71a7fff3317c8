use code_scan::languages::SupportedLanguage;

#[test]
fn test_language_detection() {
    // Assert that extensions map to the correct Enum
    assert!(matches!(SupportedLanguage::from_path("index.ts"), SupportedLanguage::TypeScript));
    assert!(matches!(SupportedLanguage::from_path("App.tsx"), SupportedLanguage::TSX));
    assert!(matches!(SupportedLanguage::from_path("script.py"), SupportedLanguage::Python));
    assert!(matches!(SupportedLanguage::from_path("unknown.xyz"), SupportedLanguage::Unknown));
}

#[test]
fn test_grammar_loading() {
    // Verify that we can actually load the grammar without crashing
    let lang = SupportedLanguage::Python;
    let grammar = lang.get_grammar();
    // If grammar was null, this would panic or segfault in C-land
    assert!(grammar.node_kind_count() > 0);
}

#[test]
fn detection_covers_every_recognized_extension() {
    assert!(matches!(SupportedLanguage::from_path("a.js"), SupportedLanguage::JavaScript));
    assert!(matches!(SupportedLanguage::from_path("a.mjs"), SupportedLanguage::JavaScript));
    assert!(matches!(SupportedLanguage::from_path("a.rs"), SupportedLanguage::Rust));
    assert!(matches!(SupportedLanguage::from_path("a.go"), SupportedLanguage::Go));
    assert!(matches!(SupportedLanguage::from_path("a.mts"), SupportedLanguage::Unknown));
    assert!(matches!(SupportedLanguage::from_path(""), SupportedLanguage::Unknown));
    assert!(matches!(SupportedLanguage::from_path("no_extension"), SupportedLanguage::Unknown));
}

#[test]
fn every_recognized_grammar_has_node_kinds() {
    let profiles = vec![
        SupportedLanguage::TypeScript,
        SupportedLanguage::TSX,
        SupportedLanguage::JavaScript,
        SupportedLanguage::Python,
        SupportedLanguage::Rust,
        SupportedLanguage::Go,
    ];
    for lang in profiles {
        assert!(lang.get_grammar().node_kind_count() > 0);
    }
}

#[test]
fn query_text_per_profile() {
    assert!(SupportedLanguage::Python.get_query().contains("function_definition"));
    assert!(SupportedLanguage::Rust.get_query().contains("struct_item"));
    // TypeScript and TSX bind class names under a typed identifier node kind,
    // JavaScript under a plain identifier.
    assert!(SupportedLanguage::TypeScript.get_query().contains("type_identifier"));
    assert!(SupportedLanguage::TSX.get_query().contains("interface_declaration"));
    assert!(SupportedLanguage::JavaScript.get_query().contains("(class_declaration name: (identifier) @name)"));
    assert!(SupportedLanguage::Go.get_query().is_empty());
    assert!(SupportedLanguage::Unknown.get_query().is_empty());
}

#[test]
fn profile_names() {
    assert_eq!(SupportedLanguage::TypeScript.name(), "TypeScript");
    assert_eq!(SupportedLanguage::TSX.name(), "TSX");
    assert_eq!(SupportedLanguage::JavaScript.name(), "JavaScript");
    assert_eq!(SupportedLanguage::Python.name(), "Python");
    assert_eq!(SupportedLanguage::Rust.name(), "Rust");
    assert_eq!(SupportedLanguage::Go.name(), "Go");
    assert_eq!(SupportedLanguage::Unknown.name(), "Unknown");
}
