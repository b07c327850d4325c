use rust_knowledge::cargo::CargoUniverse;
use rust_knowledge::pipeline::{index_meta, CorpusReport, IndexOptions};

#[test]
fn index_meta_records_the_universe_and_the_effective_scope() {
    let universe = CargoUniverse::new(Vec::new(), Vec::new(), "/ws".to_string(), "/ws/target".to_string(), None);
    let corpus = CorpusReport {
        packages: 3,
        rustdoc_packages: 1,
        markdown_files: 2,
        cargo_version: Some("cargo 1.90.0".to_string()),
        rustdoc_format_version: Some(61),
        skipped: vec![("a@1".to_string(), "no lib".to_string())],
        warnings: vec!["w".to_string()],
    };
    let mut options = IndexOptions::default();
    options.skip_rustdoc = true;
    let meta = index_meta(&universe, &corpus, &options, 42, "lock".to_string(), "0".to_string());
    assert_eq!(meta.workspace_root, "/ws");
    assert_eq!(meta.rustdoc_scope, "None");
    assert_eq!(meta.document_count, 42);
    assert_eq!(meta.package_count, 3);
    assert_eq!(meta.metadata_fingerprint, universe.fingerprint());
    assert_eq!(meta.metadata_fingerprint.len(), 32);
    assert_eq!(meta.skipped, corpus.skipped);
    assert_eq!(meta.toolchain.as_deref(), Some("nightly"));
}
