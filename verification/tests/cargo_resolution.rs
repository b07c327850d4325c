use std::cell::RefCell;

use rust_knowledge::cargo::discovery::{
    resolve_with, rustup_answer, rustup_which_args, version_from_output, CargoSource, ResolveInputs,
    ResolvedCargo,
};
use rust_knowledge::cargo::resolve_cargo;

#[test]
fn explicit_cargo_beats_env_and_path() {
    assert_eq!(
        resolve_cargo(Some("  /explicit/cargo  "), Some("/from-env".to_string())),
        Some("/explicit/cargo".to_string())
    );
}

#[test]
fn empty_explicit_cargo_falls_through_to_env() {
    for empty in ["", "  \t"] {
        assert_eq!(
            resolve_cargo(Some(empty), Some("/from-env".to_string())),
            Some("/from-env".to_string()),
            "an empty explicit cargo must defer to the environment's"
        );
    }
}

#[test]
fn empty_or_absent_env_cargo_falls_to_path() {
    assert_eq!(resolve_cargo(None, Some("  ".to_string())), None);
    assert_eq!(resolve_cargo(None, None), None);
}

#[test]
fn env_cargo_fills_the_gap() {
    assert_eq!(
        resolve_cargo(None, Some("  /from-env  ".to_string())),
        Some("/from-env".to_string())
    );
}

/// Stand-in for the rustup probe: records every call and returns a canned
/// answer.
struct RustupProbe {
    result: Option<String>,
    calls: RefCell<Vec<Option<String>>>,
}

impl RustupProbe {
    fn new(result: Option<&str>) -> Self {
        RustupProbe { result: result.map(str::to_string), calls: RefCell::new(Vec::new()) }
    }

    fn probe(&self, toolchain: Option<&str>) -> Option<String> {
        self.calls.borrow_mut().push(toolchain.map(str::to_string));
        self.result.clone()
    }

    fn calls(&self) -> Vec<Option<String>> {
        self.calls.borrow().clone()
    }
}

fn resolve_case(
    toolchain: Option<&str>,
    explicit_cargo: Option<&str>,
    cargo_env: Option<&str>,
    probe: &RustupProbe,
    home_bin: Option<&str>,
) -> ResolvedCargo {
    let rustup = |t: Option<&str>| probe.probe(t);
    let home = || home_bin.map(str::to_string);
    resolve_with(&ResolveInputs {
        toolchain,
        explicit_cargo,
        cargo_env,
        rustup_which: &rustup,
        cargo_home_bin: &home,
    })
}

#[test]
fn explicit_cargo_wins_over_every_tier_and_suppresses_toolchain() {
    let probe = RustupProbe::new(Some("/rustup/nightly/bin/cargo"));
    let resolved = resolve_case(
        Some("nightly"),
        Some("/opt/custom/cargo"),
        Some("/invoking/cargo"),
        &probe,
        Some("/home/u/.cargo/bin/cargo"),
    );
    assert_eq!(resolved.source, CargoSource::Explicit);
    assert_eq!(resolved.program, "/opt/custom/cargo");
    assert!(resolved.pre_args.is_empty());
    assert!(probe.calls().is_empty(), "explicit override must not spawn rustup");
}

#[test]
fn empty_or_whitespace_explicit_cargo_counts_as_unset() {
    let probe = RustupProbe::new(None);
    let resolved = resolve_case(None, Some("   "), Some("/invoking/cargo"), &probe, None);
    assert_eq!(resolved.source, CargoSource::CargoEnv);
}

#[test]
fn cargo_env_wins_over_rustup_for_untoolchained_lookups() {
    let probe = RustupProbe::new(Some("/rustup/stable/bin/cargo"));
    let resolved = resolve_case(
        None,
        None,
        Some("/invoking/cargo"),
        &probe,
        Some("/home/u/.cargo/bin/cargo"),
    );
    assert_eq!(resolved.source, CargoSource::CargoEnv);
    assert_eq!(resolved.program, "/invoking/cargo");
    assert!(resolved.pre_args.is_empty());
    assert!(probe.calls().is_empty(), "$CARGO must not spawn rustup for untoolchained lookups");
}

#[test]
fn cargo_env_is_skipped_when_a_toolchain_is_requested() {
    let probe = RustupProbe::new(Some("/rustup/nightly/bin/cargo"));
    let resolved = resolve_case(
        Some("nightly"),
        None,
        Some("/rustup/stable/bin/cargo"),
        &probe,
        Some("/home/u/.cargo/bin/cargo"),
    );
    assert_eq!(resolved.source, CargoSource::Rustup);
    assert_eq!(resolved.program, "/rustup/nightly/bin/cargo");
    assert!(resolved.pre_args.is_empty());
    assert_eq!(probe.calls(), vec![Some("nightly".to_string())]);
}

#[test]
fn cargo_env_is_trimmed() {
    let probe = RustupProbe::new(None);
    let resolved = resolve_case(None, None, Some("  /invoking/cargo  "), &probe, None);
    assert_eq!(resolved.program, "/invoking/cargo");
}

#[test]
fn empty_cargo_env_counts_as_unset() {
    let probe = RustupProbe::new(Some("/rustup/stable/bin/cargo"));
    let resolved = resolve_case(None, None, Some(""), &probe, None);
    assert_eq!(resolved.source, CargoSource::Rustup);
}

#[test]
fn rustup_tier_pins_the_requested_toolchain_and_suppresses_the_arg() {
    let probe = RustupProbe::new(Some("/rustup/nightly/bin/cargo"));
    let resolved =
        resolve_case(Some("nightly"), None, None, &probe, Some("/home/u/.cargo/bin/cargo"));
    assert_eq!(resolved.source, CargoSource::Rustup);
    assert_eq!(resolved.program, "/rustup/nightly/bin/cargo");
    assert!(
        resolved.pre_args.is_empty(),
        "rustup already pinned the toolchain; +toolchain would be rejected"
    );
    assert_eq!(resolved.path_prepend.as_deref(), Some("/rustup/nightly/bin"));
    assert_eq!(probe.calls(), vec![Some("nightly".to_string())]);
}

#[test]
fn rustup_tier_asks_for_the_active_toolchain_when_none_is_requested() {
    let probe = RustupProbe::new(Some("/rustup/stable/bin/cargo"));
    let resolved = resolve_case(None, None, None, &probe, None);
    assert_eq!(resolved.source, CargoSource::Rustup);
    assert!(resolved.pre_args.is_empty());
    assert_eq!(resolved.path_prepend.as_deref(), Some("/rustup/stable/bin"));
    assert_eq!(probe.calls(), vec![None]);
}

#[test]
fn only_the_rustup_tier_carries_a_path_prepend() {
    let probe = RustupProbe::new(Some("/rustup/nightly/bin/cargo"));
    assert!(
        resolve_case(None, Some("/opt/custom/cargo"), None, &probe, None).path_prepend.is_none(),
        "explicit override: the caller owns the whole environment"
    );
    assert!(
        resolve_case(None, None, Some("/invoking/cargo"), &probe, None).path_prepend.is_none(),
        "$CARGO: the invoking cargo already prepared the environment"
    );
    let rustup = resolve_case(None, None, None, &probe, None);
    assert_eq!(rustup.path_prepend.as_deref(), Some("/rustup/nightly/bin"));
    let no_rustup = RustupProbe::new(None);
    assert!(
        resolve_case(None, None, None, &no_rustup, Some("/home/u/.cargo/bin/cargo"))
            .path_prepend
            .is_none(),
        "$CARGO_HOME/bin/cargo is the rustup proxy; it prepares its own env"
    );
    assert!(
        resolve_case(None, None, None, &no_rustup, None).path_prepend.is_none(),
        "PATH cargo: resolved by the OS at spawn time"
    );
}

#[test]
fn missing_rustup_falls_through_to_cargo_home() {
    let probe = RustupProbe::new(None);
    let resolved =
        resolve_case(Some("nightly"), None, None, &probe, Some("/home/u/.cargo/bin/cargo"));
    assert_eq!(resolved.source, CargoSource::CargoHome);
    assert_eq!(resolved.program, "/home/u/.cargo/bin/cargo");
    assert_eq!(resolved.pre_args, vec!["+nightly".to_string()]);
}

#[test]
fn empty_rustup_output_falls_through_to_cargo_home() {
    let probe = RustupProbe::new(Some(""));
    let resolved = resolve_case(None, None, None, &probe, Some("/home/u/.cargo/bin/cargo"));
    assert_eq!(resolved.source, CargoSource::CargoHome);
}

#[test]
fn path_fallback_keeps_the_toolchain_arg() {
    let probe = RustupProbe::new(None);
    let resolved = resolve_case(Some("nightly"), None, None, &probe, None);
    assert_eq!(resolved.source, CargoSource::Path);
    assert_eq!(resolved.program, "cargo");
    assert_eq!(resolved.pre_args, vec!["+nightly".to_string()]);
}

#[test]
fn path_fallback_without_a_requested_toolchain_has_no_pre_args() {
    let probe = RustupProbe::new(None);
    let resolved = resolve_case(None, None, None, &probe, None);
    assert_eq!(resolved.source, CargoSource::Path);
    assert_eq!(resolved.program, "cargo");
    assert!(resolved.pre_args.is_empty());
}

#[test]
fn cargo_home_pre_args_follow_the_requested_toolchain() {
    let probe = RustupProbe::new(None);
    let with = resolve_case(Some("nightly"), None, None, &probe, Some("/home/u/.cargo/bin/cargo"));
    let without = resolve_case(None, None, None, &probe, None);
    assert_eq!(with.pre_args, vec!["+nightly".to_string()]);
    assert!(without.pre_args.is_empty());
}

#[test]
fn rustup_is_asked_for_the_requested_toolchain() {
    assert_eq!(rustup_which_args(Some("nightly")), vec!["which", "--toolchain", "nightly", "cargo"]);
    assert_eq!(rustup_which_args(None), vec!["which", "cargo"]);
}

#[test]
fn rustup_answers_count_only_when_successful_and_non_empty() {
    assert_eq!(
        rustup_answer(true, b" /rustup/bin/cargo\n"),
        Some("/rustup/bin/cargo".to_string())
    );
    assert_eq!(rustup_answer(true, b"  \n"), None);
    assert_eq!(rustup_answer(false, b"/rustup/bin/cargo"), None);
}

#[test]
fn cargo_version_output_is_trimmed_and_needs_success() {
    assert_eq!(version_from_output(true, " cargo 1.90.0 \n"), Some("cargo 1.90.0".to_string()));
    assert_eq!(version_from_output(true, "   "), None);
    assert_eq!(version_from_output(false, "cargo 1.90.0"), None);
}

#[test]
fn resolving_a_resolved_cargo_selects_it_again() {
    let first = resolve_cargo(Some("bin/cargo"), None).expect("a binary was chosen");
    assert!(first.starts_with('/'), "a relative binary is made absolute: {first}");
    assert!(first.ends_with("/bin/cargo"), "the relative path stays at the end: {first}");
    assert_eq!(resolve_cargo(Some(&first), Some("/from-env".to_string())), Some(first.clone()));
}
