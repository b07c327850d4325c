use rust_knowledge::config::WorkspaceConfig;

fn default_config() -> WorkspaceConfig {
    WorkspaceConfig::defaults()
}

#[test]
fn log_filter_resolution() {
    assert_eq!(default_config().log_filter(true), "debug");
    assert_eq!(default_config().log_filter(false), "info");
    let quiet = WorkspaceConfig { log: "warn".to_string(), ..default_config() };
    assert_eq!(quiet.log_filter(false), "warn");
}

#[test]
fn resolve_index_dir_defaults_to_the_workspace() {
    assert_eq!(
        default_config().resolve_index_dir("/ws"),
        "/ws/.rust-knowledge",
        "no --index-dir: the workspace default"
    );
    let explicit =
        WorkspaceConfig { index_dir: Some("/explicit-idx".to_string()), ..default_config() };
    assert_eq!(
        explicit.resolve_index_dir("/ws"),
        "/explicit-idx",
        "an explicit --index-dir wins over the workspace default"
    );
}

#[test]
fn defaults_leave_everything_unset_but_the_log_filter() {
    let config = default_config();
    assert_eq!(config.manifest_path, None);
    assert_eq!(config.index_dir, None);
    assert_eq!(config.cargo, None);
    assert_eq!(config.log, "info");
}

#[test]
fn verbose_wins_over_a_configured_log_filter() {
    let quiet = WorkspaceConfig { log: "warn".to_string(), ..default_config() };
    assert_eq!(quiet.log_filter(true), "debug");
}
