use rust_knowledge::error::IndexError;
use rust_knowledge::id::DocumentId;
use rust_knowledge::model::{PackageIdentity, SourceKind, SourceSpan};
use rust_knowledge::rustdoc::artifact::normalize_text;
use rust_knowledge::rustdoc::normalize::{normalize, parse_failure};
use rust_knowledge::rustdoc::types::{
    Abi, DocCrate, Function, FunctionHeader, FunctionSignature, Generics, Impl, Item, ItemEnum, Path,
    Span, Type, Visibility,
};

fn package() -> PackageIdentity {
    PackageIdentity {
        package_id: "path+file:///ws/crates/demo-core#0.1.0".to_string(),
        name: "demo-core".to_string(),
        version: "0.1.0".to_string(),
        source: None,
        manifest_path: "/ws/crates/demo-core/Cargo.toml".to_string(),
    }
}

fn item(id: u32, name: Option<&str>, public: bool, docs: Option<&str>, inner: ItemEnum) -> Item {
    Item {
        id,
        crate_id: 0,
        name: name.map(str::to_string),
        span: None,
        visibility: if public { Visibility::Public } else { Visibility::Default },
        docs: docs.map(str::to_string),
        links: Vec::new(),
        inner,
    }
}

fn unit_fn() -> Function {
    Function {
        sig: FunctionSignature { inputs: Vec::new(), output: None, is_c_variadic: false },
        generics: Generics { params: Vec::new() },
        header: FunctionHeader { is_const: false, is_unsafe: false, is_async: false, abi: Abi::Rust },
    }
}

/// A crate: root module (0) with docs, holding a public function (1), a
/// private function (2), a public struct (3) with an inherent impl (4)
/// holding a method (5), an impl of a foreign trait (6) holding a method
/// (7), and a public trait (8) with an item (9) and an impl of it (10)
/// holding a method (11).
fn demo_crate(format_version: u32) -> DocCrate {
    let mut offload = item(1, Some("offload_blocking"), true, Some("Runs the work."), ItemEnum::Function(unit_fn()));
    offload.span = Some(Span {
        filename: "crates/demo-core/src/lib.rs".to_string(),
        begin: (10, 1),
        end: (20, 2),
    });
    offload.links = vec![3, 1, 99];
    let struct_ty = || Type::ResolvedPath(Path { path: "Writer".to_string(), id: 3, args: None });
    DocCrate {
        root: 0,
        index: vec![
            item(
                0,
                Some("demo_core"),
                true,
                Some("  Crate docs.  "),
                ItemEnum::Module { is_crate: true, items: vec![1, 2, 3, 8] },
            ),
            offload,
            item(2, Some("hidden"), false, Some("Private."), ItemEnum::Function(unit_fn())),
            item(3, Some("Writer"), true, Some("A writer."), ItemEnum::Struct { impls: vec![4, 6, 10] }),
            item(
                4,
                None,
                true,
                None,
                ItemEnum::Impl(Impl { is_synthetic: false, trait_: None, for_: struct_ty(), items: vec![5] }),
            ),
            item(5, Some("flush"), true, Some("Flushes."), ItemEnum::Function(unit_fn())),
            item(
                6,
                None,
                true,
                None,
                ItemEnum::Impl(Impl {
                    is_synthetic: false,
                    trait_: Some(Path { path: "Debug".to_string(), id: 50, args: None }),
                    for_: struct_ty(),
                    items: vec![7],
                }),
            ),
            item(7, Some("fmt"), true, None, ItemEnum::Function(unit_fn())),
            item(8, Some("Sink"), true, Some("A sink."), ItemEnum::Trait { items: vec![9] }),
            item(9, Some("put"), false, Some("Puts."), ItemEnum::Function(unit_fn())),
            item(
                10,
                None,
                true,
                None,
                ItemEnum::Impl(Impl {
                    is_synthetic: false,
                    trait_: Some(Path { path: "Sink".to_string(), id: 8, args: None }),
                    for_: struct_ty(),
                    items: vec![11],
                }),
            ),
            item(11, Some("put"), false, None, ItemEnum::Function(unit_fn())),
        ],
        paths: vec![(99, vec!["std".to_string(), "thread".to_string(), "spawn".to_string()])],
        format_version,
    }
}

fn symbols(docs: &[rust_knowledge::model::KnowledgeDocument]) -> Vec<String> {
    docs.iter().map(|d| d.symbol_path.clone().unwrap_or_default()).collect()
}

#[test]
fn walk_emits_public_items_in_order() {
    let out = normalize(&package(), &demo_crate(61), "/ws", 61);
    assert_eq!(out.format_version, 61);
    assert!(out.warnings.is_empty());
    assert_eq!(
        symbols(&out.documents),
        vec![
            "demo_core",
            "demo_core::offload_blocking",
            "demo_core::Writer",
            "demo_core::Writer::flush",
            "demo_core::Sink",
            "demo_core::Sink::put",
        ]
    );
}

#[test]
fn items_carry_symbol_provenance() {
    let out = normalize(&package(), &demo_crate(61), "/ws", 61);
    let doc = &out.documents[1];
    assert_eq!(doc.source_kind, SourceKind::RustdocItem);
    assert_eq!(doc.item_kind.as_deref(), Some("function"));
    assert_eq!(doc.title, "offload_blocking");
    assert_eq!(doc.package.name, "demo-core");
    assert_eq!(doc.signature.as_deref(), Some("pub fn offload_blocking()"));
    assert_eq!(doc.text, "Runs the work.");
    assert_eq!(doc.source_path.as_deref(), Some("/ws/crates/demo-core/src/lib.rs"));
    assert_eq!(
        doc.source_span,
        Some(SourceSpan { start_line: 10, start_col: 1, end_line: 20, end_col: 2 })
    );
    // Links resolve through the crate's path summary; the item itself and
    // unknown ids are left out.
    assert_eq!(doc.related_symbols, vec!["std::thread::spawn".to_string()]);
    assert_eq!(
        doc.id,
        DocumentId::from_identity(&[
            "path+file:///ws/crates/demo-core#0.1.0",
            "rustdoc_item",
            "demo_core::offload_blocking",
            "",
            "",
        ])
    );
}

#[test]
fn crate_docs_become_a_module_document() {
    let out = normalize(&package(), &demo_crate(61), "/ws", 61);
    let root = &out.documents[0];
    assert_eq!(root.source_kind, SourceKind::RustdocModule);
    assert_eq!(root.item_kind, None);
    assert_eq!(root.title, "demo_core");
    assert_eq!(root.text, "  Crate docs.  ");
}

#[test]
fn foreign_trait_impls_are_skipped_and_local_ones_kept() {
    let out = normalize(&package(), &demo_crate(61), "/ws", 61);
    let names = symbols(&out.documents);
    assert!(!names.iter().any(|s| s.ends_with("::fmt")));
    assert!(names.contains(&"demo_core::Writer::flush".to_string()));
    // The impl of the local trait is walked after the trait is known only
    // when the trait was recorded first; here the struct comes first, so
    // its impl of Sink is skipped.
    assert!(!names.contains(&"demo_core::Writer::put".to_string()));
}

#[test]
fn version_mismatch_warns_but_still_normalizes() {
    let out = normalize(&package(), &demo_crate(57), "/ws", 61);
    assert_eq!(out.format_version, 57);
    assert_eq!(
        out.warnings,
        vec![
            "rustdoc JSON for demo-core@0.1.0 has format_version 57, parser supports 61;              parsing succeeded, but results may be inaccurate"
                .to_string()
        ]
    );
    assert_eq!(out.documents.len(), 6);
}

#[test]
fn blank_module_docs_emit_nothing() {
    let mut krate = demo_crate(61);
    krate.index[0].docs = Some("   ".to_string());
    let out = normalize(&package(), &krate, "/ws", 61);
    assert_eq!(out.documents[0].symbol_path.as_deref(), Some("demo_core::offload_blocking"));
}

#[test]
fn parse_failures_name_the_version_mismatch() {
    match parse_failure("p@1".to_string(), 57, 61, "/a.json".to_string(), "bad".to_string()) {
        IndexError::RustdocFormatVersion { got, expected, .. } => {
            assert_eq!((got, expected), (57, 61))
        }
        other => panic!("expected a format-version error, got {other:?}"),
    }
    match parse_failure("p@1".to_string(), 61, 61, "/a.json".to_string(), "bad".to_string()) {
        IndexError::RustdocParse { cause, .. } => assert_eq!(cause, "bad"),
        other => panic!("expected a parse error, got {other:?}"),
    }
}

fn rustdoc_json(format_version: u32) -> String {
    let krate = rustdoc_types::Crate {
        root: rustdoc_types::Id(0),
        crate_version: None,
        includes_private: false,
        index: std::collections::HashMap::new(),
        paths: std::collections::HashMap::new(),
        external_crates: std::collections::HashMap::new(),
        target: rustdoc_types::Target { triple: "x86_64-unknown-linux-gnu".to_string(), target_features: Vec::new() },
        format_version,
    };
    serde_json::to_string(&krate).expect("serializes")
}

fn convert_to_demo(_k: &rustdoc_types::Crate) -> DocCrate {
    demo_crate(0)
}

#[test]
fn text_that_is_not_json_is_a_parse_error_with_version_zero() {
    let err = normalize_text(&package(), "not json", "/t/a.json", "/ws", convert_to_demo).err().expect("fails");
    match err {
        IndexError::RustdocParse { package, got, expected, artifact, cause } => {
            assert_eq!(package, "demo-core@0.1.0");
            assert_eq!(got, 0);
            assert_eq!(expected, rustdoc_types::FORMAT_VERSION);
            assert_eq!(artifact, "/t/a.json");
            assert!(!cause.is_empty());
        }
        other => panic!("unexpected error: {other:?}"),
    }
}

#[test]
fn failed_parse_with_other_version_names_the_mismatch() {
    let err = normalize_text(&package(), r#"{"format_version": 3}"#, "/t/a.json", "/ws", convert_to_demo)
        .err()
        .expect("fails");
    assert!(
        matches!(err, IndexError::RustdocFormatVersion { got: 3, expected, .. } if expected == rustdoc_types::FORMAT_VERSION),
        "{err:?}"
    );
}

#[test]
fn failed_parse_with_same_version_reports_the_parser() {
    let raw = format!(r#"{{"format_version": {}}}"#, rustdoc_types::FORMAT_VERSION);
    let err = normalize_text(&package(), &raw, "/t/a.json", "/ws", convert_to_demo).err().expect("fails");
    assert!(
        matches!(&err, IndexError::RustdocParse { got, .. } if *got == rustdoc_types::FORMAT_VERSION),
        "{err:?}"
    );
}

#[test]
fn parsed_text_is_normalized_with_the_probed_version() {
    let ok = normalize_text(&package(), &rustdoc_json(rustdoc_types::FORMAT_VERSION), "/t/a.json", "/ws", convert_to_demo)
        .expect("parses");
    assert_eq!(ok.format_version, rustdoc_types::FORMAT_VERSION);
    assert!(ok.warnings.is_empty());
    let direct = normalize(&package(), &demo_crate(rustdoc_types::FORMAT_VERSION), "/ws", rustdoc_types::FORMAT_VERSION);
    assert_eq!(ok.documents.len(), direct.documents.len());
    let older = normalize_text(&package(), &rustdoc_json(rustdoc_types::FORMAT_VERSION - 1), "/t/a.json", "/ws", convert_to_demo)
        .expect("an older version still parses here");
    assert_eq!(older.format_version, rustdoc_types::FORMAT_VERSION - 1);
    assert_eq!(older.warnings.len(), 1);
}

#[test]
fn documents_of_keeps_one_package() {
    let docs = normalize(&package(), &demo_crate(61), "/ws", 61).documents;
    let n = docs.len();
    assert!(n > 0);
    let kept = rust_knowledge::dump::documents_of(docs, "path+file:///ws/crates/demo-core#0.1.0");
    assert_eq!(kept.len(), n);
    let docs = normalize(&package(), &demo_crate(61), "/ws", 61).documents;
    assert!(rust_knowledge::dump::documents_of(docs, "registry+other#1.0.0").is_empty());
}
