use rust_knowledge::cargo::{hash_bytes, CargoUniverse, Node, Package, Target, TargetKind};
use rust_knowledge::listing::{package_rows, package_table_header, package_table_line};
use rust_knowledge::text::sort_texts;

fn package(name: &str, version: &str, source: Option<&str>) -> Package {
    Package {
        id: format!("{name} {version}"),
        name: name.to_string(),
        version: version.to_string(),
        source: source.map(str::to_string),
        manifest_path: format!("/ws/{name}/Cargo.toml"),
        targets: vec![Target { name: name.replace('-', "_"), kinds: vec![TargetKind::Lib] }],
    }
}

fn universe(packages: Vec<Package>) -> CargoUniverse {
    CargoUniverse::new(
        packages,
        vec!["demo-core 0.1.0".to_string()],
        "/ws".to_string(),
        "/ws/target".to_string(),
        Some(vec![Node {
            id: "base64 0.21.7".to_string(),
            features: vec!["alloc".to_string(), "std".to_string()],
        }]),
    )
}

#[test]
fn rows_are_sorted_by_name_then_version() {
    let u = universe(vec![
        package("base64", "0.22.1", Some("registry+https://github.com/rust-lang/crates.io-index")),
        package("demo-core", "0.1.0", None),
        package("base64", "0.21.7", Some("registry+https://github.com/rust-lang/crates.io-index")),
        package("anyhow", "1.0.0", Some("git+https://example.com/anyhow")),
    ]);
    let rows = package_rows(&u);
    let keys: Vec<(String, String, String)> =
        rows.iter().map(|r| (r.name.clone(), r.version.clone(), r.origin.clone())).collect();
    assert_eq!(
        keys,
        vec![
            ("anyhow".to_string(), "1.0.0".to_string(), "git".to_string()),
            ("base64".to_string(), "0.21.7".to_string(), "registry".to_string()),
            ("base64".to_string(), "0.22.1".to_string(), "registry".to_string()),
            ("demo-core".to_string(), "0.1.0".to_string(), "workspace".to_string()),
        ]
    );
    assert_eq!(rows[1].features, "alloc,std");
    assert_eq!(rows[2].features, "");
}

#[test]
fn table_lines_are_padded_columns() {
    let u = universe(vec![package("demo-core", "0.1.0", None)]);
    let rows = package_rows(&u);
    assert_eq!(
        package_table_header(),
        format!("{:<24} {:<12} {:<10} {:<28} PATH", "PACKAGE", "VERSION", "ORIGIN", "FEATURES")
    );
    assert_eq!(
        package_table_line(&rows[0]),
        format!(
            "{:<24} {:<12} {:<10} {:<28} {}",
            "demo-core", "0.1.0", "workspace", "-", "/ws/demo-core/Cargo.toml"
        )
    );
}

#[test]
fn fingerprint_ignores_package_order() {
    let a = universe(vec![package("x", "1.0.0", None), package("y", "2.0.0", None)]);
    let b = universe(vec![package("y", "2.0.0", None), package("x", "1.0.0", None)]);
    assert_eq!(a.fingerprint(), b.fingerprint());
    assert_eq!(a.fingerprint().len(), 32);
    let c = universe(vec![package("x", "1.0.1", None), package("y", "2.0.0", None)]);
    assert_ne!(a.fingerprint(), c.fingerprint());
}

#[test]
fn hash_bytes_is_the_sha256_prefix() {
    assert_eq!(hash_bytes(b"abc"), "ba7816bf8f01cfea414140de5dae2223");
}

#[test]
fn sort_texts_orders_by_code_point_and_keeps_duplicates() {
    let v = vec!["b".to_string(), "a".to_string(), "ab".to_string(), "B".to_string(), "a".to_string()];
    assert_eq!(sort_texts(v), vec!["B", "a", "a", "ab", "b"]);
}

#[test]
fn versions_of_orders_by_semver() {
    let u = universe(vec![
        package("base64", "0.22.1", None),
        package("other", "1.0.0", None),
        package("base64", "0.9.3", None),
        package("base64", "0.21.7", None),
    ]);
    let versions: Vec<&str> = u.versions_of("base64").iter().map(|p| p.version.as_str()).collect();
    assert_eq!(versions, vec!["0.9.3", "0.21.7", "0.22.1"]);
    assert!(u.versions_of("missing").is_empty());
}
