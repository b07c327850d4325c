use rust_knowledge::cargo::CargoUniverse;
use rust_knowledge::error::IndexError;

fn roots_only(m: &cargo_metadata::Metadata) -> CargoUniverse {
    CargoUniverse::new(
        Vec::new(),
        Vec::new(),
        m.workspace_root.to_string(),
        m.target_directory.to_string(),
        None,
    )
}

#[test]
fn metadata_json_that_does_not_parse_is_a_cargo_metadata_error() {
    let err = CargoUniverse::from_metadata_json("{\"packages\": 3}", roots_only)
        .err()
        .expect("does not parse");
    match err {
        IndexError::CargoMetadata { message } => assert!(!message.is_empty()),
        other => panic!("unexpected error: {other:?}"),
    }
}

#[test]
fn metadata_json_is_handed_to_the_conversion() {
    let json = r#"{"packages":[],"workspace_members":[],"resolve":null,"workspace_root":"/ws","target_directory":"/ws/target","version":1}"#;
    let universe = CargoUniverse::from_metadata_json(json, roots_only).expect("parses");
    assert_eq!(universe.workspace_root(), "/ws");
    assert_eq!(universe.target_directory(), "/ws/target");
    assert_eq!(universe.package_count(), 0);
}
