use rust_knowledge::workspace::{first_existing, manifest_candidates, nearest_manifest};

#[test]
fn none_found_without_manifest_anywhere_above() {
    // A directory with no Cargo.toml at or above it exhausts the ancestors.
    assert_eq!(nearest_manifest("/nonexistent-rust-knowledge-start/deep/dir"), None);
}

#[test]
fn candidates_are_the_lexical_ancestors_nearest_first() {
    assert_eq!(
        manifest_candidates("/work/link/crates"),
        vec![
            "/work/link/crates/Cargo.toml".to_string(),
            "/work/link/Cargo.toml".to_string(),
            "/work/Cargo.toml".to_string(),
            "/Cargo.toml".to_string(),
        ]
    );
}

#[test]
fn first_existing_picks_the_nearest_found_manifest() {
    let candidates = manifest_candidates("/work/link/crates");
    assert_eq!(
        first_existing(&candidates, &vec![false, true]),
        Some("/work/link/Cargo.toml".to_string())
    );
    assert_eq!(
        first_existing(&candidates, &vec![true]),
        Some("/work/link/crates/Cargo.toml".to_string())
    );
    assert_eq!(first_existing(&candidates, &vec![false, false, false, false]), None);
}
