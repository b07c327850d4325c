use rust_knowledge::id::DocumentId;

#[test]
fn deterministic() {
    let a = DocumentId::from_identity(&["pkg", "kind", "sym", "0", "0"]);
    let b = DocumentId::from_identity(&["pkg", "kind", "sym", "0", "0"]);
    assert_eq!(a, b);
}

#[test]
fn part_boundaries_are_unambiguous() {
    let a = DocumentId::from_identity(&["ab", "c"]);
    let b = DocumentId::from_identity(&["a", "bc"]);
    assert_ne!(a, b);
}

#[test]
fn changes_with_any_part() {
    let base = ["pkg", "kind", "sym", "0", "0"];
    for i in 0..base.len() {
        let mut parts = base.to_vec();
        parts[i] = "different";
        let refs: Vec<&str> = parts.to_vec();
        assert_ne!(
            DocumentId::from_identity(&base),
            DocumentId::from_identity(&refs),
            "changing part {i} must change the id"
        );
    }
}

#[test]
fn stable_hex_shape() {
    let id = DocumentId::from_identity(&["tokio", "rustdoc_item", "task::spawn_blocking", "", ""]);
    assert_eq!(id.as_str().len(), 32);
    assert!(id.as_str().bytes().all(|b| b.is_ascii_hexdigit()));
}

#[test]
fn from_raw_accepts_ids_and_lowercases_them() {
    let id = DocumentId::from_identity(&["pkg", "kind", "sym", "", ""]);
    let back = DocumentId::from_raw(id.as_str().to_string()).expect("an id round-trips");
    assert_eq!(back, id);
    let upper = DocumentId::from_raw("ABCDEF0123456789ABCDEF0123456789".to_string())
        .expect("upper-case hex is accepted");
    assert_eq!(upper.as_str(), "abcdef0123456789abcdef0123456789");
}

#[test]
fn from_raw_rejects_other_shapes() {
    assert!(DocumentId::from_raw("abc".to_string()).is_none());
    assert!(DocumentId::from_raw("g".repeat(32)).is_none());
    assert!(DocumentId::from_raw("a".repeat(33)).is_none());
}

#[test]
fn known_digest_of_the_empty_identity() {
    // SHA-256 of the empty input starts with e3b0c44298fc1c149afbf4c8996fb924.
    let id = DocumentId::from_identity(&[]);
    assert_eq!(id.as_str(), "e3b0c44298fc1c149afbf4c8996fb924");
}
