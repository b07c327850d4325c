use rust_knowledge::cargo::{CargoUniverse, Package, Target, TargetKind};
use rust_knowledge::rustdoc::provider::{
    failure_reason, lib_crate_name, missing_reason, package_spec, rustdoc_args, stderr_tail,
    GeneratedRustdocProvider, GeneratedRustdocs, PackagePlan, PrebuiltRustdocProvider, RunOutcome,
};

const BAD_CARGO: &str = "/definitely-not-a-cargo-binary-0123456789";

fn minimal_universe() -> CargoUniverse {
    CargoUniverse::new(
        Vec::new(),
        Vec::new(),
        "/rustdoc-test".to_string(),
        "/rustdoc-test/target".to_string(),
        None,
    )
}

fn provider(
    cargo: Option<&str>,
    toolchain: Option<String>,
    env_cargo: Option<String>,
) -> GeneratedRustdocProvider {
    let universe = minimal_universe();
    GeneratedRustdocProvider::new_with_env(
        &universe,
        "/artifacts".to_string(),
        toolchain,
        cargo,
        env_cargo,
    )
}

fn lib_package() -> Package {
    Package {
        id: "path+file:///rustdoc-test#demo_lib@0.1.0".to_string(),
        name: "demo_lib".to_string(),
        version: "0.1.0".to_string(),
        source: None,
        manifest_path: "/rustdoc-test/Cargo.toml".to_string(),
        targets: vec![Target { name: "demo_lib".to_string(), kinds: vec![TargetKind::Lib] }],
    }
}

#[test]
fn cargo_argv_uses_the_resolved_binary_and_suppresses_toolchain() {
    let provider = provider(
        Some("/opt/cargo"),
        Some("nightly".to_string()),
        Some("/from-env".to_string()),
    );
    assert_eq!(
        provider.cargo_argv(),
        vec!["/opt/cargo".to_string()],
        "an explicit cargo binary replaces the PATH lookup and the +toolchain argument"
    );
}

#[test]
fn cargo_argv_applies_the_toolchain_only_for_path_cargo() {
    let with_toolchain = provider(None, Some("nightly".to_string()), None);
    assert_eq!(with_toolchain.cargo_argv(), vec!["cargo".to_string(), "+nightly".to_string()]);
    let plain = provider(None, None, None);
    assert_eq!(plain.cargo_argv(), vec!["cargo".to_string()]);
}

#[test]
fn constructor_resolves_cargo_explicit_over_env() {
    let explicit = provider(
        Some("/explicit-cargo"),
        Some("nightly".to_string()),
        Some("/from-env".to_string()),
    );
    assert_eq!(
        explicit.cargo(),
        Some("/explicit-cargo"),
        "an explicit --cargo must beat the environment's at construction"
    );
    let via_env = provider(None, None, Some("/from-env".to_string()));
    assert_eq!(
        via_env.cargo(),
        Some("/from-env"),
        "the environment's cargo must fill the gap when no explicit cargo was given"
    );
}

#[test]
fn explicit_cargo_reaches_the_rustdoc_spawn() {
    let provider = provider(Some(BAD_CARGO), Some("nightly".to_string()), None);
    let pkg = lib_package();
    match provider.plan(&pkg) {
        PackagePlan::Generate { command, .. } => assert!(
            command.contains(BAD_CARGO),
            "the spawned command must name the explicit cargo binary, got: {command}"
        ),
        PackagePlan::Unsupported { .. } => panic!("a lib package is generated"),
    }
}

#[test]
fn provider_paths_follow_the_universe() {
    let p = provider(None, None, None);
    assert_eq!(p.manifest_path(), "/rustdoc-test/Cargo.toml");
    assert_eq!(p.workspace_root(), "/rustdoc-test");
    assert_eq!(p.artifact_source("demo_lib"), "/rustdoc-test/target/doc/demo_lib.json");
    assert_eq!(p.artifact_dest(&lib_package()), "/artifacts/demo_lib-0.1.0.json");
}

#[test]
fn plan_spells_out_the_rustdoc_command() {
    let p = provider(None, Some("nightly".to_string()), None);
    match p.plan(&lib_package()) {
        PackagePlan::Generate { spec, lib_name, args, command } => {
            assert_eq!(spec, "demo_lib@0.1.0");
            assert_eq!(lib_name, "demo_lib");
            assert_eq!(args, rustdoc_args("demo_lib@0.1.0"));
            assert_eq!(
                command,
                "cargo +nightly rustdoc -p demo_lib@0.1.0 --lib -- -Zunstable-options --output-format json"
            );
        }
        PackagePlan::Unsupported { .. } => panic!("a lib package is generated"),
    }
}

#[test]
fn binary_only_packages_are_unsupported() {
    let mut pkg = lib_package();
    pkg.targets = vec![Target { name: "demo".to_string(), kinds: vec![TargetKind::Bin] }];
    assert_eq!(lib_crate_name(&pkg), None);
    match provider(None, None, None).plan(&pkg) {
        PackagePlan::Unsupported { spec } => assert_eq!(spec, "demo_lib@0.1.0"),
        PackagePlan::Generate { .. } => panic!("a binary-only package cannot have rustdoc JSON"),
    }
}

#[test]
fn lib_crate_name_takes_the_first_library_like_target() {
    let mut pkg = lib_package();
    pkg.targets = vec![
        Target { name: "tool".to_string(), kinds: vec![TargetKind::Bin] },
        Target { name: "macros".to_string(), kinds: vec![TargetKind::ProcMacro] },
        Target { name: "other".to_string(), kinds: vec![TargetKind::Lib] },
    ];
    assert_eq!(lib_crate_name(&pkg), Some("macros".to_string()));
    assert_eq!(package_spec(&pkg), "demo_lib@0.1.0");
}

#[test]
fn failed_runs_are_skipped_with_the_exit_code_and_stderr_tail() {
    let p = provider(None, None, None);
    let mut out = GeneratedRustdocs::default();
    let outcome =
        p.after_run(&mut out, &lib_package(), "demo_lib", false, Some(101), b"  error: boom \n");
    assert!(matches!(outcome, RunOutcome::Skipped));
    assert_eq!(
        out.skipped,
        vec![(
            "demo_lib@0.1.0".to_string(),
            "cargo rustdoc failed (101); stderr: error: boom".to_string()
        )]
    );
    assert_eq!(failure_reason(None, b""), "cargo rustdoc failed (-1); stderr: ");
}

#[test]
fn successful_runs_without_an_artifact_are_skipped() {
    let p = provider(None, None, None);
    let mut out = GeneratedRustdocs::default();
    let outcome = p.after_run(&mut out, &lib_package(), "demo_lib", true, Some(0), b"");
    assert!(matches!(outcome, RunOutcome::Skipped));
    assert_eq!(
        out.skipped[0].1,
        missing_reason("/rustdoc-test/target/doc/demo_lib.json")
    );
    assert_eq!(
        missing_reason("/x.json"),
        "rustdoc JSON not produced at /x.json; this may be a toolchain without rustdoc JSON support"
    );
}

#[test]
fn stderr_tail_keeps_the_last_bytes_at_a_character_boundary() {
    assert_eq!(stderr_tail(b"  short  ", 4000), "short");
    assert_eq!(stderr_tail(b"abcdef", 3), "...def");
    // "é" is two bytes: a cut inside it moves back to the boundary before it.
    assert_eq!(stderr_tail("aé".as_bytes(), 1), "...é");
    assert_eq!(stderr_tail(&[0xff], 10), "\u{FFFD}");
}

#[test]
fn prebuilt_provider_skips_packages_without_artifacts() {
    let universe = minimal_universe();
    let pkg = lib_package();
    let prebuilt = PrebuiltRustdocProvider { dir: "/definitely/not/a/dir".to_string() };
    let out = prebuilt.generate(&universe, &[&pkg]).expect("prebuilt lookup never fails");
    assert!(out.artifacts.is_empty());
    assert!(out.unsupported.is_empty());
    assert_eq!(
        out.skipped,
        vec![(
            "demo_lib@0.1.0".to_string(),
            "no prebuilt artifact at /definitely/not/a/dir/demo_lib-0.1.0.json".to_string()
        )]
    );
}
